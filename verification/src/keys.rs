//! Addresses of accounts and parties, and comparison of 32-byte values.

use vstd::prelude::*;

verus! {

/// A 32-byte address of an account or of a party.
#[derive(Clone, Copy, Debug, PartialEq, Eq)]
pub struct Pubkey {
    pub bytes: [u8; 32],
}

/// Whether two 32-byte values hold the same bytes.
pub fn bytes32_eq(a: &[u8; 32], b: &[u8; 32]) -> (same: bool)
    ensures
        same == (a@ == b@),
        same == (*a == *b),
{
    let mut i: usize = 0;
    while i < 32
        invariant
            i <= 32,
            forall|j: int| 0 <= j < i ==> a@[j] == b@[j],
        decreases 32 - i,
    {
        if a[i] != b[i] {
            assert(a@[i as int] != b@[i as int]);
            return false;
        }
        i += 1;
    }
    assert(a@ =~= b@);
    assert(*a =~= *b);
    true
}

impl Pubkey {
    /// Whether two addresses are the same address.
    pub fn same(&self, other: &Pubkey) -> (same: bool)
        ensures
            same == (*self == *other),
    {
        let same = bytes32_eq(&self.bytes, &other.bytes);
        assert(same ==> *self =~= *other);
        same
    }
}

} // verus!
