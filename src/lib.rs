//! A tender (public procurement) lifecycle: a state machine for one tender,
//! a registry of accounts allowed to bid or test, and a factory that deploys
//! tender instances under sub-accounts with a refundable deposit.
//!
//! Every entry point takes an explicit [`CallContext`] in place of an ambient
//! runtime, and every asynchronous step is split into a function that decides
//! what to ask for and a function that consumes the answer.
pub mod account;
pub mod tender;
pub mod auth;
pub mod factory;
pub mod probe;

pub use account::{AccountId, CallContext, ContractError};
