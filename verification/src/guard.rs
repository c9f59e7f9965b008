use vstd::prelude::*;
use crate::account::{Identity, IDENTITY_WIDTH};
use crate::error::HandlerError;

verus! {

/// The sole authorization rule: an account may be mutated only by the
/// program recorded as its owner. Succeeds exactly when the two
/// identities agree byte for byte; mutates nothing either way.
pub fn check(account_owner: &Identity, program_id: &Identity) -> (r: Result<(), HandlerError>)
    ensures
        account_owner.bytes@ == program_id.bytes@ ==> r == Ok::<(), HandlerError>(()),
        account_owner.bytes@ != program_id.bytes@ ==> r == Err::<(), HandlerError>(
            HandlerError::IncorrectOwner,
        ),
{
    let mut i: usize = 0;
    while i < IDENTITY_WIDTH
        invariant
            i <= IDENTITY_WIDTH,
            forall|j: int| 0 <= j < i ==> account_owner.bytes@[j] == program_id.bytes@[j],
        decreases IDENTITY_WIDTH - i,
    {
        if account_owner.bytes[i] != program_id.bytes[i] {
            return Err(HandlerError::IncorrectOwner);
        }
        i = i + 1;
    }
    proof {
        assert(account_owner.bytes@ =~= program_id.bytes@);
    }
    Ok(())
}

} // verus!
