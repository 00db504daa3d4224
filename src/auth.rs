use vstd::prelude::*;
use near_sdk::PromiseError;
use crate::account::AccountId;

verus! {

/// The two membership tables kept by the registry.
#[derive(Debug, Clone, Copy, PartialEq, Eq, Structural)]
pub enum RegistryList {
    Bidding,
    Testing,
}

/// An operation suspended while the registry is consulted, with the
/// arguments captured when it was requested.
#[derive(Debug)]
pub enum PendingCall {
    /// Store a bid for the signer.
    PlaceBid { price: u64, bidder_name: String, database_hash: String },
    /// Report the answer, together with the entries that travelled along.
    ExternalCallResult { entries: Vec<(i32, String)> },
}

/// A membership query to send to the registry, and what to resume with once
/// its answer comes back.
#[derive(Debug)]
pub struct RegistryQuery {
    /// The registry contract to ask.
    pub registry: AccountId,
    /// The account whose membership is asked about.
    pub account_id: AccountId,
    /// Which table to look in.
    pub list: RegistryList,
    /// The continuation to run with the answer.
    pub resume: PendingCall,
}

/// The registry confirmed membership: the call was delivered and answered yes.
pub open spec fn registry_allows(answer: Result<bool, PromiseError>) -> bool {
    answer == Ok::<bool, PromiseError>(true)
}

pub fn is_allowed(answer: &Result<bool, PromiseError>) -> (r: bool)
    ensures
        r == registry_allows(*answer),
{
    match answer {
        Ok(b) => *b,
        Err(_) => false,
    }
}

} // verus!
