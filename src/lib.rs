//! Multihash: a digest tagged with a two-byte header that names the hash
//! algorithm and the digest length, so that a reader can parse it without
//! knowing in advance which algorithm produced it.
pub mod codec;
pub mod digest;
pub mod registry;
