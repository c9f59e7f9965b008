//! A verified purchase counter: an instruction handler that, on each
//! authorized invocation, increments a fixed-width counter stored at the
//! front of an account's byte buffer. The handler checks that the account
//! is owned by the invoking program, decodes the counter, increments it,
//! and writes it back in place; every failure leaves the buffer untouched.

pub mod account;
pub mod codec;
pub mod error;
pub mod guard;
pub mod handler;
pub mod state;
