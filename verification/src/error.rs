use vstd::prelude::*;

verus! {

/// Every way a single invocation of the instruction handler can fail.
/// Each failure aborts the invocation before any byte of the account
/// buffer is written, so a failed invocation has no observable effect.
#[derive(Debug, Clone, Copy, PartialEq, Eq)]
pub enum HandlerError {
    /// The instruction carried no account at all.
    MissingAccount,
    /// The first account's owner is not the invoking program.
    IncorrectOwner,
    /// The first account's buffer is shorter than the encoded counter.
    InvalidEncoding,
    /// The stored counter is already at the largest representable value.
    Overflow,
}

} // verus!
