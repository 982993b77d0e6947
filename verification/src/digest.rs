//! The collision-resistant hash that derives transaction identifiers and
//! value commitments.

use vstd::prelude::*;

verus! {

/// The Keccak-256 digest of a byte string.
pub uninterp spec fn keccak256(data: Seq<u8>) -> Seq<u8>;

/// Hashes `data` with `solana_program::keccak::hash` and takes the digest's
/// bytes with `Hash::to_bytes`.
///
/// Trusted: the result is the Keccak-256 digest of exactly the bytes of
/// `data`. The digest is a function of those bytes alone; nothing is
/// claimed about its value.
#[verifier::external_body]
pub(crate) fn keccak_hash(data: &[u8]) -> (digest: [u8; 32])
    ensures
        digest@ == keccak256(data@),
{
    solana_program::keccak::hash(data).to_bytes()
}

} // verus!
