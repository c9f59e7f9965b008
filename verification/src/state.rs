use vstd::prelude::*;
use crate::error::HandlerError;

verus! {

/// The state stored in an account: how many purchases have been made
/// through it. The counter never decreases across successful invocations.
#[derive(Debug, Clone, Copy, PartialEq, Eq, Structural)]
pub struct BuyAccount {
    /// Number of purchases recorded so far.
    pub counter: u32,
}

/// The pure counter transition: one more purchase.
///
/// Overflow policy: a counter already at `u32::MAX` fails with
/// `Overflow` and the state is left as it was; the counter never wraps.
pub fn apply(state: &BuyAccount) -> (r: Result<BuyAccount, HandlerError>)
    ensures
        state.counter < u32::MAX ==> r == Ok::<BuyAccount, HandlerError>(
            BuyAccount { counter: (state.counter + 1) as u32 },
        ),
        state.counter == u32::MAX ==> r == Err::<BuyAccount, HandlerError>(HandlerError::Overflow),
{
    if state.counter == u32::MAX {
        Err(HandlerError::Overflow)
    } else {
        Ok(BuyAccount { counter: state.counter + 1 })
    }
}

} // verus!
