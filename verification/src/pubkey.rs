//! The identity of a wallet, a program, a stored record or a derived authority.

use vstd::prelude::*;

verus! {

/// A 32-byte identifier. Two keys are the same when all their bytes are.
#[derive(Clone, Copy, Debug, PartialEq, Eq)]
pub struct Pubkey(pub [u8; 32]);

impl Pubkey {
    /// The key of thirty-two zero bytes.
    pub open spec fn zero() -> Pubkey {
        Pubkey(vstd::array::spec_array_fill_for_copy_type::<u8, 32>(0u8))
    }

    /// The key made of the given bytes.
    pub fn new_from_array(bytes: [u8; 32]) -> (key: Pubkey)
        ensures
            key.0 == bytes,
    {
        Pubkey(bytes)
    }

    /// The bytes of the key.
    pub fn to_bytes(&self) -> (bytes: [u8; 32])
        ensures
            bytes == self.0,
    {
        self.0
    }

    /// Whether the two keys are the same.
    pub fn equals(&self, other: &Pubkey) -> (same: bool)
        ensures
            same == (*self == *other),
    {
        let mut i: usize = 0;
        while i < 32
            invariant
                i <= 32,
                forall|j: int| 0 <= j < i ==> self.0[j] == other.0[j],
            decreases 32 - i,
        {
            if self.0[i] != other.0[i] {
                return false;
            }
            i += 1;
        }
        assert(self.0 =~= other.0);
        true
    }
}

impl Default for Pubkey {
    /// The key of thirty-two zero bytes, which a fresh record holds.
    fn default() -> (key: Self)
        ensures
            key == Pubkey::zero(),
    {
        Pubkey([0u8;32])
    }
}

} // verus!
