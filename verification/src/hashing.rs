//! SHA-256, as the `sha2` crate computes it.

use vstd::prelude::*;

verus! {

/// Names the SHA-256 digest of a byte sequence.
pub uninterp spec fn sha256_digest(data: Seq<u8>) -> Seq<u8>;

/// Trusted: wraps `sha2::Sha256::digest` (through the `Digest` trait) and
/// claims only that the 32-byte result is the SHA-256 digest of the input
/// bytes, a function of those bytes alone.
#[verifier::external_body]
pub(crate) fn sha256(data: &[u8]) -> (r: [u8; 32])
    ensures
        r@ == sha256_digest(data@),
{
    let digest = <sha2::Sha256 as sha2::Digest>::digest(data);
    let mut out = [0u8; 32];
    out.copy_from_slice(digest.as_slice());
    out
}

} // verus!
