//! Identities on the ledger.

use vstd::prelude::*;
use vstd::std_specs::cmp::PartialEqSpec;

verus! {

/// The identity of an account or of a contract on the ledger.
///
/// It holds the identity's key in text form: 56 ASCII characters, the first of
/// which is `G` for an account and `C` for a contract. Two addresses name the
/// same party exactly when their keys are the same.
#[derive(Clone, Copy, Debug, Eq)]
pub struct Address {
    pub strkey: [u8; 56],
}

impl PartialEq for Address {
    fn eq(&self, other: &Self) -> (same: bool) {
        let mut i: usize = 0;
        while i < 56
            invariant
                i <= 56,
                forall|j: int| 0 <= j < i ==> self.strkey@[j] == other.strkey@[j],
            decreases 56 - i,
        {
            if self.strkey[i] != other.strkey[i] {
                return false;
            }
            i += 1;
        }
        assert(self.strkey =~= other.strkey);
        true
    }
}

impl vstd::std_specs::cmp::PartialEqSpecImpl for Address {
    open spec fn obeys_eq_spec() -> bool {
        true
    }

    open spec fn eq_spec(&self, other: &Self) -> bool {
        *self == *other
    }
}

/// Comparing two addresses compares every character of their keys, and nothing
/// else.
pub proof fn law_addresses_are_their_keys(a: Address, b: Address)
    ensures
        <Address as PartialEqSpec>::obeys_eq_spec(),
        a.eq_spec(&b) <==> (forall|i: int| 0 <= i < 56 ==> a.strkey@[i] == b.strkey@[i]),
        a == b <==> a.strkey@ == b.strkey@,
{
    if a.strkey@ == b.strkey@ {
        assert(a.strkey =~= b.strkey);
    }
    if forall|i: int| 0 <= i < 56 ==> a.strkey@[i] == b.strkey@[i] {
        assert(a.strkey =~= b.strkey);
    }
}

} // verus!
