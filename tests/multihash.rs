use multihash::codec::{decode, encode_digest, multihash, DecodeError, EncodeError};
use multihash::registry::{DigestAlgorithm, HashTypes};
use openssl::hash::{hash, MessageDigest};

const ALL: [HashTypes; 6] = [
    HashTypes::SHA1,
    HashTypes::SHA2256,
    HashTypes::SHA2512,
    HashTypes::SHA3,
    HashTypes::Blake2b,
    HashTypes::Blake2s,
];

#[test]
fn test1() {
    let example = b"Hello World";
    let mut result = hash(MessageDigest::sha256(), example).unwrap().to_vec();
    let length = result.len() as u8;
    result.insert(0, 0x12);
    result.insert(1, length);

    assert_eq!(multihash(HashTypes::SHA2256, example.to_vec()).unwrap(), result);
}

#[test]
fn sha256_hello_world_vector() {
    let out = multihash(HashTypes::SHA2256, b"Hello World".to_vec()).unwrap();
    let expected_digest: [u8; 32] = [
        0xa5, 0x91, 0xa6, 0xd4, 0x0b, 0xf4, 0x20, 0x40, 0x4a, 0x01, 0x17, 0x33, 0xcf, 0xb7, 0xb1,
        0x90, 0xd6, 0x2c, 0x65, 0xbf, 0x0b, 0xcd, 0xa3, 0x2b, 0x57, 0xb2, 0x77, 0xd9, 0xad, 0x9f,
        0x14, 0x6e,
    ];
    assert_eq!(out.len(), 34);
    assert_eq!(out[0], 0x12);
    assert_eq!(out[1], 0x20);
    assert_eq!(&out[2..], &expected_digest[..]);
}

#[test]
fn digest_lengths_per_algorithm() {
    let sha1 = multihash(HashTypes::SHA1, b"abc".to_vec()).unwrap();
    assert_eq!(&sha1[..2], &[0x11, 20]);
    assert_eq!(sha1.len(), 22);
    let sha512 = multihash(HashTypes::SHA2512, b"abc".to_vec()).unwrap();
    assert_eq!(&sha512[..2], &[0x13, 64]);
    assert_eq!(sha512.len(), 66);
}

#[test]
fn sha1_empty_input_vector() {
    let out = multihash(HashTypes::SHA1, Vec::new()).unwrap();
    let expected: [u8; 20] = [
        0xda, 0x39, 0xa3, 0xee, 0x5e, 0x6b, 0x4b, 0x0d, 0x32, 0x55, 0xbf, 0xef, 0x95, 0x60, 0x18,
        0x90, 0xaf, 0xd8, 0x07, 0x09,
    ];
    assert_eq!(&out[..2], &[0x11, 0x14]);
    assert_eq!(&out[2..], &expected[..]);
}

#[test]
fn round_trip_supported_algorithms() {
    let input = b"round trip input".to_vec();
    for h in [HashTypes::SHA1, HashTypes::SHA2256, HashTypes::SHA2512] {
        let encoded = multihash(h, input.clone()).unwrap();
        let (back, digest) = decode(&encoded).unwrap();
        assert_eq!(back, h);
        assert_eq!(digest, encoded[2..].to_vec());
    }
    let (back, digest) = decode(&multihash(HashTypes::SHA2256, input.clone()).unwrap()).unwrap();
    assert_eq!(back, HashTypes::SHA2256);
    assert_eq!(digest, hash(MessageDigest::sha256(), &input).unwrap().to_vec());
}

#[test]
fn header_matches_code_and_length() {
    for h in [HashTypes::SHA1, HashTypes::SHA2256, HashTypes::SHA2512] {
        let out = multihash(h, b"header".to_vec()).unwrap();
        assert_eq!(out[0], h.to_u8());
        assert_eq!(out[1] as usize, out.len() - 2);
    }
}

#[test]
fn encoding_is_deterministic() {
    let a = multihash(HashTypes::SHA2512, b"same input".to_vec()).unwrap();
    let b = multihash(HashTypes::SHA2512, b"same input".to_vec()).unwrap();
    assert_eq!(a, b);
    let c = multihash(HashTypes::SHA2512, b"other input".to_vec()).unwrap();
    assert_ne!(a, c);
}

#[test]
fn sha3_is_unsupported() {
    assert_eq!(
        multihash(HashTypes::SHA3, b"anything".to_vec()),
        Err(EncodeError::UnsupportedAlgorithm(HashTypes::SHA3))
    );
    assert_eq!(
        multihash(HashTypes::Blake2b, Vec::new()),
        Err(EncodeError::UnsupportedAlgorithm(HashTypes::Blake2b))
    );
    assert_eq!(
        multihash(HashTypes::Blake2s, vec![1, 2, 3]),
        Err(EncodeError::UnsupportedAlgorithm(HashTypes::Blake2s))
    );
}

#[test]
fn decode_truncated_header() {
    assert_eq!(decode(&[0x12]), Err(DecodeError::TruncatedHeader));
    assert_eq!(decode(&[]), Err(DecodeError::TruncatedHeader));
}

#[test]
fn decode_unknown_code() {
    assert_eq!(decode(&[0xFF, 0x00]), Err(DecodeError::UnknownAlgorithmCode(0xFF)));
}

#[test]
fn decode_length_mismatch() {
    assert_eq!(
        decode(&[0x12, 0x20, 1, 2, 3, 4, 5]),
        Err(DecodeError::LengthMismatch { declared: 32, actual: 5 })
    );
}

#[test]
fn decode_reserved_code_with_empty_digest() {
    assert_eq!(decode(&[0x14, 0x00]), Ok((HashTypes::SHA3, Vec::new())));
    assert_eq!(decode(&[0x41, 0x02, 9, 8]), Ok((HashTypes::Blake2s, vec![9, 8])));
}

#[test]
fn encode_digest_prefixes_header() {
    assert_eq!(
        encode_digest(HashTypes::Blake2b, vec![7, 8, 9]),
        Ok(vec![0x40, 3, 7, 8, 9])
    );
    assert_eq!(encode_digest(HashTypes::SHA1, Vec::new()), Ok(vec![0x11, 0]));
}

#[test]
fn encode_digest_largest_and_too_large() {
    let max = vec![0xAB; 255];
    let out = encode_digest(HashTypes::SHA2512, max.clone()).unwrap();
    assert_eq!(out.len(), 257);
    assert_eq!(&out[..2], &[0x13, 0xFF]);
    assert_eq!(&out[2..], &max[..]);
    assert_eq!(
        encode_digest(HashTypes::SHA2512, vec![0; 256]),
        Err(EncodeError::DigestTooLarge(HashTypes::SHA2512, 256))
    );
}

#[test]
fn wire_codes() {
    let codes: Vec<u8> = ALL.iter().map(|h| h.to_u8()).collect();
    assert_eq!(codes, vec![0x11, 0x12, 0x13, 0x14, 0x40, 0x41]);
    for h in ALL {
        assert_eq!(HashTypes::from_u8(h.to_u8()), Some(h));
    }
    assert_eq!(HashTypes::from_u8(0x00), None);
    assert_eq!(HashTypes::from_u8(0x15), None);
}

#[test]
fn support_predicate() {
    let supported: Vec<bool> = ALL.iter().map(|h| h.is_supported()).collect();
    assert_eq!(supported, vec![true, true, true, false, false, false]);
    assert_eq!(HashTypes::SHA2256.native(), Some(DigestAlgorithm::Sha256));
    assert_eq!(HashTypes::SHA3.native(), None);
}
