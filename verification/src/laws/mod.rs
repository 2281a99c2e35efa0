//! What the parts of the library promise together, over all inputs: what a result has to do
//! with what it was made of, and how two calls relate.
//!
//! Where a function says all there is to say in its own contract, a law here speaks of any
//! result `r` that the contract allows: `call_ensures(f, args, r)`.

pub mod actor;
pub mod calls;
pub mod device;
pub mod envelopes;
pub mod frames;
pub mod invites;
pub mod numbers;
pub mod screens;
pub mod start;
pub mod stream;
pub mod texts;
pub mod tokens;
