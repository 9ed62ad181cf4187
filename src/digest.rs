//! The digest computation, which OpenSSL performs.
use crate::registry::DigestAlgorithm;
use openssl::error::ErrorStack;
use openssl::hash::MessageDigest;
use vstd::prelude::*;

verus! {

#[verifier::external_type_specification]
#[verifier::external_body]
pub struct ExErrorStack(ErrorStack);

/// The digest bytes of `data` under `alg`, as OpenSSL computes them.
pub uninterp spec fn openssl_digest(alg: DigestAlgorithm, data: Seq<u8>) -> Seq<u8>;

/// Relies on openssl::hash::hash: when it succeeds, it returns the digest of
/// `data` under the chosen algorithm, which depends on these two alone.
#[verifier::external_body]
pub(crate) fn compute_digest(alg: DigestAlgorithm, data: &[u8]) -> (r: Result<Vec<u8>, ErrorStack>)
    ensures
        r matches Ok(d) ==> d@ == openssl_digest(alg, data@),
{
    let md = match alg {
        DigestAlgorithm::Sha1 => MessageDigest::sha1(),
        DigestAlgorithm::Sha256 => MessageDigest::sha256(),
        DigestAlgorithm::Sha512 => MessageDigest::sha512(),
    };
    match openssl::hash::hash(md, data) {
        Ok(bytes) => Ok(bytes.to_vec()),
        Err(e) => Err(e),
    }
}

} // verus!
