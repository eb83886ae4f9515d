//! Identities and clock readings, as the host hands them in.

use vstd::prelude::*;

verus! {

/// A reading of the host's clock. The registry stores it and hands it back; it never
/// compares or computes with it.
pub type Timestamp = u64;

/// Who is calling, or who owns something: a 32-byte address. The registry looks at
/// nothing in it but whether two of them are the same.
#[derive(Clone, Copy, Debug)]
pub struct AccountId(pub [u8; 32]);

impl PartialEq for AccountId {
    fn eq(&self, other: &AccountId) -> (same: bool) {
        let mut i: usize = 0;
        while i < 32
            invariant
                i <= 32,
                forall|j: int| 0 <= j < i ==> self.0[j] == other.0[j],
            decreases 32 - i,
        {
            if self.0[i] != other.0[i] {
                return false;
            }
            i += 1;
        }
        assert(self.0 =~= other.0);
        true
    }
}

impl Eq for AccountId {

}

impl vstd::std_specs::cmp::PartialEqSpecImpl for AccountId {
    open spec fn obeys_eq_spec() -> bool {
        true
    }

    /// Two identities are equal exactly when all 32 bytes agree.
    open spec fn eq_spec(&self, other: &AccountId) -> bool {
        *self == *other
    }
}

} // verus!
