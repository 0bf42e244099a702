//! On-chain subscription billing: platform configuration, subscription plans,
//! user subscriptions and the instructions that move them from state to state.
//!
//! Every instruction is a verified function over the account states. Work that
//! the runtime does (moving tokens, loading and storing accounts, logging events)
//! stays with the program that hosts this library; the cluster clock is read here,
//! through one trusted wrapper.

pub mod constants;
pub mod errors;
pub mod events;
pub mod instructions;
pub mod laws;
pub mod math;
pub mod runtime;
pub mod state;
