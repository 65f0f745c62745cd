//! Identities of stakers, referrers, wallets and records.

use vstd::prelude::*;
use vstd::std_specs::cmp::PartialEqSpecImpl;

verus! {

/// A 32-byte identity. Two identities are equal where their bytes are.
///
/// The identity whose bytes are all zero stands for "nobody": a staker's
/// record that still carries it has never been used.
#[derive(Clone, Copy, Debug, Eq)]
pub struct Identity {
    pub bytes: [u8; 32],
}

impl Identity {
    /// The all-zero identity.
    pub open spec fn zero() -> Identity {
        Identity { bytes: vstd::array::spec_array_fill_for_copy_type::<u8, 32>(0u8) }
    }

    /// Whether this is the all-zero identity.
    pub open spec fn unset(self) -> bool {
        self == Identity::zero()
    }

    /// The identity with the given bytes.
    pub fn new(bytes: [u8; 32]) -> (id: Identity)
        ensures
            id.bytes == bytes,
    {
        Identity { bytes }
    }

    /// Whether this is the all-zero identity.
    pub fn is_unset(&self) -> (r: bool)
        ensures
            r == self.unset(),
    {
        let zero = Identity::default();
        *self == zero
    }
}

impl Default for Identity {
    /// The all-zero identity.
    fn default() -> (id: Identity)
        ensures
            id == Identity::zero(),
    {
        Identity { bytes: [0u8;32] }
    }
}

impl PartialEq for Identity {
    fn eq(&self, other: &Identity) -> (r: bool) {
        let mut i: usize = 0;
        while i < 32
            invariant
                i <= 32,
                forall|j: int| 0 <= j < i ==> self.bytes[j] == other.bytes[j],
            decreases 32 - i,
        {
            if self.bytes[i] != other.bytes[i] {
                return false;
            }
            i += 1;
        }
        assert(self.bytes =~= other.bytes);
        true
    }
}

impl PartialEqSpecImpl for Identity {
    open spec fn obeys_eq_spec() -> bool {
        true
    }

    open spec fn eq_spec(&self, other: &Identity) -> bool {
        *self == *other
    }
}

/// Every byte of the all-zero identity is zero, and it is the only identity
/// of which that holds.
pub proof fn lemma_zero_identity(id: Identity)
    ensures
        id.unset() <==> (forall|i: int| 0 <= i < 32 ==> id.bytes[i] == 0),
{
    vstd::array::axiom_spec_array_fill_for_copy_type::<u8, 32>(0u8);
    if forall|i: int| 0 <= i < 32 ==> id.bytes[i] == 0 {
        assert(id.bytes =~= Identity::zero().bytes);
    }
}

} // verus!
