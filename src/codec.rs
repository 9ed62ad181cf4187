//! Encoding a digest into a multihash, and decoding one back.
use crate::digest::{compute_digest, openssl_digest};
use crate::registry::{hash_of_code, native_selector, supported, wire_code, HashTypes};
use vstd::prelude::*;

verus! {

/// Why a multihash could not be built.
#[derive(PartialEq, Eq, Structural, Clone, Copy, Debug)]
pub enum EncodeError {
    /// The algorithm has no digest implementation wired in.
    UnsupportedAlgorithm(HashTypes),
    /// The digest is longer than the one-byte length field can state.
    DigestTooLarge(HashTypes, usize),
    /// The digest implementation reported a failure.
    DigestFailed(HashTypes),
}

/// Why a byte sequence is not a well-formed multihash.
#[derive(PartialEq, Eq, Structural, Clone, Copy, Debug)]
pub enum DecodeError {
    /// Fewer than the two header bytes.
    TruncatedHeader,
    /// The first byte is not the code of any known algorithm.
    UnknownAlgorithmCode(u8),
    /// The declared digest length differs from the number of bytes after the header.
    LengthMismatch { declared: u8, actual: usize },
}

/// The largest digest that the one-byte length field can describe.
pub const MAX_DIGEST_LEN: usize = 255;

/// The digest that encoding `input` under `h` carries.
pub open spec fn digest_of(h: HashTypes, input: Seq<u8>) -> Seq<u8> {
    openssl_digest(native_selector(h)->Some_0, input)
}

/// The two header bytes followed by the digest.
pub open spec fn framed(h: HashTypes, digest: Seq<u8>) -> Seq<u8> {
    seq![wire_code(h), digest.len() as u8] + digest
}

/// The multihash of an already computed digest of `h`.
pub open spec fn frame_spec(h: HashTypes, digest: Seq<u8>) -> Result<Seq<u8>, EncodeError> {
    if digest.len() > MAX_DIGEST_LEN {
        Err(EncodeError::DigestTooLarge(h, digest.len() as usize))
    } else {
        Ok(framed(h, digest))
    }
}

/// The multihash of `input` under `h`, where the digest computation succeeds.
pub open spec fn encode_spec(h: HashTypes, input: Seq<u8>) -> Result<Seq<u8>, EncodeError> {
    if !supported(h) {
        Err(EncodeError::UnsupportedAlgorithm(h))
    } else {
        frame_spec(h, digest_of(h, input))
    }
}

/// The algorithm and digest that the multihash `s` holds.
pub open spec fn decode_spec(s: Seq<u8>) -> Result<(HashTypes, Seq<u8>), DecodeError> {
    if s.len() < 2 {
        Err(DecodeError::TruncatedHeader)
    } else if hash_of_code(s[0]) is None {
        Err(DecodeError::UnknownAlgorithmCode(s[0]))
    } else if s.len() != 2 + s[1] {
        Err(DecodeError::LengthMismatch { declared: s[1], actual: (s.len() - 2) as usize })
    } else {
        Ok((hash_of_code(s[0])->Some_0, s.subrange(2, s.len() as int)))
    }
}

/// What encoding `input` under `h` may return: the multihash that
/// `encode_spec` gives, or, for a supported algorithm only, a report that the
/// digest computation failed.
pub open spec fn encode_outcome(h: HashTypes, input: Seq<u8>, r: Result<Seq<u8>, EncodeError>) -> bool {
    ||| r == encode_spec(h, input)
    ||| supported(h) && r == Err::<Seq<u8>, EncodeError>(EncodeError::DigestFailed(h))
}

/// An encoding result with its bytes seen as a sequence.
pub open spec fn bytes_view(r: Result<Vec<u8>, EncodeError>) -> Result<Seq<u8>, EncodeError> {
    match r {
        Ok(v) => Ok(v@),
        Err(e) => Err(e),
    }
}

/// A decoding result with its digest seen as a sequence.
pub open spec fn decoded_view(r: Result<(HashTypes, Vec<u8>), DecodeError>) -> Result<
    (HashTypes, Seq<u8>),
    DecodeError,
> {
    match r {
        Ok((h, d)) => Ok((h, d@)),
        Err(e) => Err(e),
    }
}

/// Prefixes an already computed digest of `wanthash` with the multihash header.
pub fn encode_digest(wanthash: HashTypes, digest: Vec<u8>) -> (r: Result<Vec<u8>, EncodeError>)
    ensures
        bytes_view(r) == frame_spec(wanthash, digest@),
{
    let n = digest.len();
    if n > MAX_DIGEST_LEN {
        return Err(EncodeError::DigestTooLarge(wanthash, n));
    }
    let mut out: Vec<u8> = Vec::with_capacity(n + 2);
    out.push(wanthash.to_u8());
    out.push(n as u8);
    let mut payload = digest;
    out.append(&mut payload);
    assert(out@ =~= framed(wanthash, digest@));
    Ok(out)
}

/// Hashes `input` with `wanthash` and prefixes the digest with the code of
/// the algorithm and the length of the digest.
pub fn multihash(wanthash: HashTypes, input: Vec<u8>) -> (r: Result<Vec<u8>, EncodeError>)
    ensures
        encode_outcome(wanthash, input@, bytes_view(r)),
{
    match wanthash.native() {
        None => Err(EncodeError::UnsupportedAlgorithm(wanthash)),
        Some(alg) => match compute_digest(alg, input.as_slice()) {
            Ok(digest) => encode_digest(wanthash, digest),
            Err(_) => Err(EncodeError::DigestFailed(wanthash)),
        },
    }
}

/// Splits a multihash into its algorithm and its digest, checking the header.
pub fn decode(encoded: &[u8]) -> (r: Result<(HashTypes, Vec<u8>), DecodeError>)
    ensures
        decoded_view(r) == decode_spec(encoded@),
{
    let len = encoded.len();
    if len < 2 {
        return Err(DecodeError::TruncatedHeader);
    }
    let code = encoded[0];
    let declared = encoded[1];
    let h = match HashTypes::from_u8(code) {
        Some(h) => h,
        None => return Err(DecodeError::UnknownAlgorithmCode(code)),
    };
    if len - 2 != declared as usize {
        return Err(DecodeError::LengthMismatch { declared, actual: len - 2 });
    }
    let mut digest: Vec<u8> = Vec::with_capacity(len - 2);
    let mut i: usize = 2;
    while i < len
        invariant
            2 <= i <= len,
            len == encoded@.len(),
            digest@ == encoded@.subrange(2, i as int),
        decreases len - i,
    {
        digest.push(encoded[i]);
        i = i + 1;
        assert(digest@ =~= encoded@.subrange(2, i as int));
    }
    Ok((h, digest))
}

/// Decoding the header and digest that `framed` lays out gives back the
/// algorithm and the digest, for any digest that fits the length field.
pub proof fn lemma_frame_round_trip(h: HashTypes, digest: Seq<u8>)
    requires
        digest.len() <= MAX_DIGEST_LEN,
    ensures
        decode_spec(framed(h, digest)) == Ok::<(HashTypes, Seq<u8>), DecodeError>((h, digest)),
{
    let s = framed(h, digest);
    assert(s.subrange(2, s.len() as int) =~= digest);
}

/// Decoding what encoding `input` under a supported algorithm `a` produced
/// gives back `a` and the digest of `input`.
pub proof fn lemma_round_trip(a: HashTypes, input: Seq<u8>, r: Result<Seq<u8>, EncodeError>)
    requires
        supported(a),
        encode_outcome(a, input, r),
        r is Ok,
    ensures
        decode_spec(r->Ok_0) == Ok::<(HashTypes, Seq<u8>), DecodeError>((a, digest_of(a, input))),
{
    lemma_frame_round_trip(a, digest_of(a, input));
}

/// A multihash starts with the wire code of its algorithm, then the length
/// of the digest, then the digest itself.
pub proof fn lemma_header(a: HashTypes, input: Seq<u8>, r: Result<Seq<u8>, EncodeError>)
    requires
        encode_outcome(a, input, r),
        r is Ok,
    ensures
        r->Ok_0.len() == 2 + digest_of(a, input).len(),
        r->Ok_0[0] == wire_code(a),
        r->Ok_0[1] == digest_of(a, input).len(),
        r->Ok_0.subrange(2, r->Ok_0.len() as int) == digest_of(a, input),
{
    let v = r->Ok_0;
    assert(v.subrange(2, v.len() as int) =~= digest_of(a, input));
}

/// Two encodings of the same input under the same algorithm give the same
/// result, unless the digest computation failed in one of them.
pub proof fn lemma_deterministic(
    a: HashTypes,
    input: Seq<u8>,
    r1: Result<Seq<u8>, EncodeError>,
    r2: Result<Seq<u8>, EncodeError>,
)
    requires
        encode_outcome(a, input, r1),
        encode_outcome(a, input, r2),
    ensures
        r1 != Err::<Seq<u8>, EncodeError>(EncodeError::DigestFailed(a)) && r2 != Err::<
            Seq<u8>,
            EncodeError,
        >(EncodeError::DigestFailed(a)) ==> r1 == r2,
{
}

/// An algorithm without a digest implementation is always rejected as
/// unsupported, whatever the input.
pub proof fn lemma_unsupported_rejected(a: HashTypes, input: Seq<u8>, r: Result<Seq<u8>, EncodeError>)
    requires
        !supported(a),
        encode_outcome(a, input, r),
    ensures
        r == Err::<Seq<u8>, EncodeError>(EncodeError::UnsupportedAlgorithm(a)),
{
}

} // verus!
