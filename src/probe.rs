use vstd::prelude::*;
use near_sdk::PromiseError;
use crate::account::{CallContext, ContractError};
use crate::auth::{PendingCall, RegistryList, RegistryQuery, is_allowed, registry_allows};

verus! {

/// A minimal contract that checks a caller against a fixed registry before
/// acting on data it carried along.
pub struct MyContract {}

impl MyContract {
    pub fn new() -> Self {
        MyContract {}
    }

    /// Asks the registry `test.kavin.testnet` whether the signer may bid,
    /// carrying two entries to the continuation.
    pub fn call_external_function_one(&mut self, ctx: &CallContext) -> (q: RegistryQuery)
        ensures
            q.registry@ == "test.kavin.testnet"@,
            q.account_id == ctx.signer_account_id,
            q.list == RegistryList::Bidding,
            q.resume is ExternalCallResult,
            (q.resume->ExternalCallResult_entries)@.len() == 2,
            (q.resume->ExternalCallResult_entries)@[0].0 == 42,
            (q.resume->ExternalCallResult_entries)@[0].1@ == "Hello"@,
            (q.resume->ExternalCallResult_entries)@[1].0 == 99,
            (q.resume->ExternalCallResult_entries)@[1].1@ == "World"@,
    {
        let mut entries: Vec<(i32, String)> = Vec::new();
        entries.push((42, String::from_str("Hello")));
        entries.push((99, String::from_str("World")));
        RegistryQuery {
            registry: String::from_str("test.kavin.testnet"),
            account_id: ctx.signer_account_id.clone(),
            list: RegistryList::Bidding,
            resume: PendingCall::ExternalCallResult { entries },
        }
    }

    /// Resumes after the registry answered: succeeds exactly when the caller
    /// was confirmed.
    pub fn get_external_call_result(
        &self,
        is_allowed_answer: Result<bool, PromiseError>,
        _my_map: Vec<(i32, String)>,
    ) -> (r: Result<bool, ContractError>)
        ensures
            r == (if registry_allows(is_allowed_answer) {
                Ok::<bool, ContractError>(true)
            } else {
                Err(ContractError::NotPermitted)
            }),
    {
        if is_allowed(&is_allowed_answer) {
            Ok(true)
        } else {
            Err(ContractError::NotPermitted)
        }
    }
}

} // verus!
