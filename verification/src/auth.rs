//! The authorization guard: a mutating operation on an existing record is
//! allowed only to the identity recorded as the record's owner.  The dispatch
//! boundary has already authenticated the signer cryptographically; what is
//! checked here is that the authenticated identity equals the owner.

use vstd::prelude::*;
use crate::BlogError;

verus! {

broadcast use vstd::array::group_array_axioms;

/// Byte-for-byte comparison of two 32-byte identities.
pub fn bytes32_eq(a: &[u8; 32], b: &[u8; 32]) -> (r: bool)
    ensures
        r == (a@ == b@),
{
    let mut i: usize = 0;
    while i < 32
        invariant
            0 <= i <= 32,
            forall|j: int| 0 <= j < i ==> a@[j] == b@[j],
        decreases 32 - i,
    {
        if a[i] != b[i] {
            return false;
        }
        i += 1;
    }
    proof {
        assert(a@ =~= b@);
    }
    true
}

/// Succeeds exactly when the authenticated signer is the record owner;
/// otherwise fails with `Unauthorized`.
pub fn authorize(signer: &[u8; 32], owner: &[u8; 32]) -> (r: Result<(), BlogError>)
    ensures
        r == Ok::<(), BlogError>(()) <==> signer@ == owner@,
        signer@ != owner@ ==> r == Err::<(), BlogError>(BlogError::Unauthorized),
{
    if bytes32_eq(signer, owner) {
        Ok(())
    } else {
        Err(BlogError::Unauthorized)
    }
}

} // verus!
