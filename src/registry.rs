//! The closed set of hash algorithms, their wire codes, and which of them
//! have a working digest implementation.
use vstd::prelude::*;

verus! {

/// Hash algorithms that the multihash wire format can name.
///
/// SHA3, Blake2b and Blake2s have reserved codes but no digest
/// implementation wired in yet.
#[derive(PartialEq, Eq, Structural, Clone, Copy, Debug)]
pub enum HashTypes {
    SHA1,
    SHA2256,
    SHA2512,
    SHA3,
    Blake2b,
    Blake2s,
}

/// The digest implementations that the library can call.
#[derive(PartialEq, Eq, Structural, Clone, Copy, Debug)]
pub enum DigestAlgorithm {
    Sha1,
    Sha256,
    Sha512,
}

/// The one-byte code that identifies `h` on the wire.
pub open spec fn wire_code(h: HashTypes) -> u8 {
    match h {
        HashTypes::SHA1 => 0x11,
        HashTypes::SHA2256 => 0x12,
        HashTypes::SHA2512 => 0x13,
        HashTypes::SHA3 => 0x14,
        HashTypes::Blake2b => 0x40,
        HashTypes::Blake2s => 0x41,
    }
}

/// The algorithm whose wire code is `code`, if any.
pub open spec fn hash_of_code(code: u8) -> Option<HashTypes> {
    if code == 0x11 {
        Some(HashTypes::SHA1)
    } else if code == 0x12 {
        Some(HashTypes::SHA2256)
    } else if code == 0x13 {
        Some(HashTypes::SHA2512)
    } else if code == 0x14 {
        Some(HashTypes::SHA3)
    } else if code == 0x40 {
        Some(HashTypes::Blake2b)
    } else if code == 0x41 {
        Some(HashTypes::Blake2s)
    } else {
        None
    }
}

/// The digest implementation behind `h`, where one is wired in.
pub open spec fn native_selector(h: HashTypes) -> Option<DigestAlgorithm> {
    match h {
        HashTypes::SHA1 => Some(DigestAlgorithm::Sha1),
        HashTypes::SHA2256 => Some(DigestAlgorithm::Sha256),
        HashTypes::SHA2512 => Some(DigestAlgorithm::Sha512),
        _ => None,
    }
}

/// Whether a digest of `h` can be computed.
pub open spec fn supported(h: HashTypes) -> bool {
    native_selector(h) is Some
}

impl HashTypes {
    /// The wire code of this algorithm.
    pub fn to_u8(&self) -> (r: u8)
        ensures
            r == wire_code(*self),
    {
        match *self {
            HashTypes::SHA1 => 0x11,
            HashTypes::SHA2256 => 0x12,
            HashTypes::SHA2512 => 0x13,
            HashTypes::SHA3 => 0x14,
            HashTypes::Blake2b => 0x40,
            HashTypes::Blake2s => 0x41,
        }
    }

    /// The algorithm that `code` identifies, or `None` for an unassigned code.
    pub fn from_u8(code: u8) -> (r: Option<HashTypes>)
        ensures
            r == hash_of_code(code),
    {
        match code {
            0x11 => Some(HashTypes::SHA1),
            0x12 => Some(HashTypes::SHA2256),
            0x13 => Some(HashTypes::SHA2512),
            0x14 => Some(HashTypes::SHA3),
            0x40 => Some(HashTypes::Blake2b),
            0x41 => Some(HashTypes::Blake2s),
            _ => None,
        }
    }

    /// The digest implementation behind this algorithm, if one is wired in.
    pub fn native(&self) -> (r: Option<DigestAlgorithm>)
        ensures
            r == native_selector(*self),
    {
        match *self {
            HashTypes::SHA1 => Some(DigestAlgorithm::Sha1),
            HashTypes::SHA2256 => Some(DigestAlgorithm::Sha256),
            HashTypes::SHA2512 => Some(DigestAlgorithm::Sha512),
            _ => None,
        }
    }

    /// Whether a digest of this algorithm can be computed.
    pub fn is_supported(&self) -> (r: bool)
        ensures
            r == supported(*self),
    {
        self.native().is_some()
    }
}

/// Every algorithm has its own wire code: no two share one.
pub proof fn lemma_wire_code_injective(a: HashTypes, b: HashTypes)
    ensures
        wire_code(a) == wire_code(b) ==> a == b,
{
}

/// Reading back the wire code of an algorithm gives that algorithm.
pub proof fn lemma_code_round_trip(h: HashTypes)
    ensures
        hash_of_code(wire_code(h)) == Some(h),
{
}

/// A code that names an algorithm is that algorithm's wire code.
pub proof fn lemma_code_names_algorithm(code: u8)
    ensures
        hash_of_code(code) matches Some(h) ==> wire_code(h) == code,
{
}

} // verus!
