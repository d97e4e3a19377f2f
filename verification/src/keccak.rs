//! Keccak-256, as `alloy_primitives` computes it.
use vstd::prelude::*;

verus! {

/// The Keccak-256 digest of `data`: 32 bytes.
pub uninterp spec fn keccak256(data: Seq<u8>) -> Seq<u8>;

/// Calls `alloy_primitives::keccak256` and hands out the bytes of the digest.
/// Claims that they are the Keccak-256 digest of `data`; this is not proved.
#[verifier::external_body]
pub(crate) fn keccak256_digest(data: &[u8]) -> (digest: [u8; 32])
    ensures
        digest@ == keccak256(data@),
{
    alloy_primitives::keccak256(data).0
}

} // verus!
