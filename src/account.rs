use vstd::prelude::*;

verus! {

/// An account on the ledger, named by its textual identifier.
pub type AccountId = String;

/// What the ledger tells a contract about the call it is running.
pub struct CallContext {
    /// The account that signed the originating transaction.
    pub signer_account_id: AccountId,
    /// The account that made this particular call.
    pub predecessor_account_id: AccountId,
    /// The account of the contract being called.
    pub current_account_id: AccountId,
    /// The logical time of the current block.
    pub block_timestamp: u64,
    /// The funds attached to this call, in the ledger's smallest unit.
    pub attached_deposit: u128,
}

/// Why a call was refused. A refused call leaves the contract unchanged.
#[derive(Debug, Clone, Copy, PartialEq, Eq, Structural)]
pub enum ContractError {
    /// The tender is not in the phase that the operation needs (carried here).
    WrongState(crate::tender::ContractState),
    /// Only the owner may perform this operation.
    NotOwner,
    /// Only the chosen winner may perform this operation.
    NotWinner,
    /// The registry did not confirm the caller (or the query failed).
    NotPermitted,
    /// The method may only be called by the contract itself.
    PrivateMethod,
    /// No milestone has the given name.
    MilestoneNotFound,
    /// The milestone was already completed.
    MilestoneAlreadyAchieved,
    /// The derived sub-account name is not a valid account identifier.
    InvalidSubaccount,
    /// The attached deposit is below the required minimum (carried here).
    InsufficientDeposit(u128),
}

pub open spec fn is_separator(c: char) -> bool {
    c == '-' || c == '_' || c == '.'
}

pub open spec fn is_account_char(c: char) -> bool {
    ('a' as u32 <= c as u32 && c as u32 <= 'z' as u32)
        || ('0' as u32 <= c as u32 && c as u32 <= '9' as u32)
        || is_separator(c)
}

/// A well-formed account identifier: 2 to 64 characters, each a lowercase
/// ASCII letter, a digit or a separator (`-`, `_`, `.`), neither starting nor
/// ending with a separator, with no two separators in a row.
pub open spec fn valid_account_id(s: Seq<char>) -> bool {
    &&& 2 <= s.len() <= 64
    &&& forall|i: int| 0 <= i < s.len() ==> is_account_char(#[trigger] s[i])
    &&& !is_separator(s[0])
    &&& !is_separator(s[s.len() - 1])
    &&& forall|i: int| 0 <= i < s.len() - 1 ==> !(is_separator(#[trigger] s[i]) && is_separator(s[i + 1]))
}

/// Relies on `near_sdk::env::is_valid_account_id`, which accepts exactly the
/// byte strings of 2 to 64 lowercase letters, digits and single inner
/// separators. Any non-ASCII character encodes to bytes outside that set, so
/// the same rule holds over characters.
#[verifier::external_body]
pub(crate) fn is_valid_account_id(s: &String) -> (r: bool)
    ensures
        r == valid_account_id(s@),
{
    near_sdk::env::is_valid_account_id(s.as_bytes())
}

/// The outcome of an asynchronous call, as the ledger hands it to a callback.
#[verifier::external_type_specification]
#[verifier::external_body]
pub struct ExPromiseError(near_sdk::PromiseError);

/// A public key that may be attached to a newly created account.
#[verifier::external_type_specification]
#[verifier::external_body]
pub struct ExPublicKey(near_sdk::PublicKey);

/// Copies a string, keeping its contents.
pub(crate) fn copy_string(s: &String) -> (r: String)
    ensures
        r == *s,
{
    s.clone()
}

pub(crate) fn copy_opt_string(s: &Option<String>) -> (r: Option<String>)
    ensures
        r == *s,
{
    match s {
        Some(x) => Some(x.clone()),
        None => None,
    }
}

} // verus!
