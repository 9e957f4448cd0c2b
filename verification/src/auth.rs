//! The authorization checker.
//!
//! A call carries a proof set: the identities whose control the external
//! runtime verified cryptographically for this call.  An actor is proven
//! exactly when its claimed identity is in that set.  This is a pure
//! predicate with no side effects.

use vstd::prelude::*;

use crate::state::Pubkey;

verus! {

/// True when `claimed` is one of the identities in the call's proof set.
pub open spec fn spec_proven(claimed: Seq<u8>, signers: Seq<Pubkey>) -> bool {
    exists|i: int| 0 <= i < signers.len() && #[trigger] signers[i]@ == claimed
}

/// Byte-for-byte equality of two identities.
pub fn pubkey_eq(a: &Pubkey, b: &Pubkey) -> (r: bool)
    ensures
        r <==> a@ == b@,
{
    let mut k: usize = 0;
    while k < 32
        invariant
            k <= 32,
            forall|j: int| 0 <= j < k ==> a@[j] == b@[j],
        decreases 32 - k,
    {
        if a[k] != b[k] {
            return false;
        }
        k = k + 1;
    }
    proof {
        assert(a@ =~= b@);
    }
    true
}

/// Whether `claimed` has proven control of its identity for this call,
/// i.e. whether it occurs in the proof set `signers`.
pub fn is_proven(claimed: &Pubkey, signers: &Vec<Pubkey>) -> (r: bool)
    ensures
        r == spec_proven(claimed@, signers@),
{
    let mut i: usize = 0;
    while i < signers.len()
        invariant
            i <= signers@.len(),
            forall|j: int| 0 <= j < i ==> #[trigger] signers@[j]@ != claimed@,
        decreases signers@.len() - i,
    {
        if pubkey_eq(&signers[i], claimed) {
            return true;
        }
        i = i + 1;
    }
    false
}

} // verus!
