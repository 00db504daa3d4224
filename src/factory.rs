use vstd::prelude::*;
use vstd::string::StringExecFns;
use near_sdk::{PromiseError, PublicKey};
use crate::account::{AccountId, CallContext, ContractError, copy_string, is_valid_account_id, valid_account_id};
use crate::auth::registry_allows;
use crate::tender::BiddingContract;

verus! {

/// Funds required per byte of deployed code, in the ledger's smallest unit.
pub const NEAR_PER_STORAGE: u128 = 10_000_000_000_000_000_000;

/// The arguments handed to a freshly deployed tender's initializer.
#[derive(Debug, PartialEq, Eq)]
pub struct ContractInitArgs {
    pub caller: AccountId,
}

/// One irrevocable deployment: create `subaccount`, move `attached` to it,
/// install `code`, initialize it with `init_args`, optionally add
/// `public_key` as a full-access key; then settle with
/// `create_factory_subaccount_and_deploy_callback(subaccount, refund_to, attached, ..)`.
#[derive(Debug)]
pub struct DeployPlan {
    pub subaccount: AccountId,
    pub attached: u128,
    pub code: Vec<u8>,
    pub init_args: ContractInitArgs,
    pub public_key: Option<PublicKey>,
    pub refund_to: AccountId,
}

/// Funds to send back.
#[derive(Debug, PartialEq, Eq)]
pub struct Refund {
    pub receiver: AccountId,
    pub amount: u128,
}

/// The address of `name` as a sub-account of `parent`.
pub open spec fn subaccount_of(name: Seq<char>, parent: Seq<char>) -> Seq<char> {
    name + seq!['.'] + parent
}

/// The deposit that covers storing `code_len` bytes of code.
pub open spec fn minimum_deposit(code_len: nat) -> int {
    NEAR_PER_STORAGE * code_len
}

/// Whether a deployment request may go ahead, checked before any funds move.
pub open spec fn deploy_outcome(ctx: CallContext, name: Seq<char>, code_len: nat) -> Result<
    (),
    ContractError,
> {
    if !valid_account_id(subaccount_of(name, ctx.current_account_id@)) {
        Err(ContractError::InvalidSubaccount)
    } else if (ctx.attached_deposit as int) < minimum_deposit(code_len) {
        Err(ContractError::InsufficientDeposit(minimum_deposit(code_len) as u128))
    } else {
        Ok(())
    }
}

/// How a finished deployment is settled: success is reported, failure
/// returns the whole deposit to the user.
pub open spec fn settlement(user: AccountId, attached: u128, created: bool) -> (bool, Option<Refund>) {
    if created {
        (true, None)
    } else {
        (false, Some(Refund { receiver: user, amount: attached }))
    }
}

pub fn minimum_deposit_for(code_len: usize) -> (r: u128)
    ensures
        r as int == minimum_deposit(code_len as nat),
{
    let len = code_len as u128;
    assert(NEAR_PER_STORAGE * len <= u128::MAX) by (nonlinear_arith)
        requires
            len <= u64::MAX,
            NEAR_PER_STORAGE == 10_000_000_000_000_000_000u128,
    ;
    NEAR_PER_STORAGE * len
}

fn plan_deployment(
    ctx: &CallContext,
    project_name: String,
    code: &Vec<u8>,
    public_key: Option<PublicKey>,
) -> (r: Result<DeployPlan, ContractError>)
    ensures
        r is Ok <==> deploy_outcome(*ctx, project_name@, code@.len()) is Ok,
        r is Err ==> r == Err::<DeployPlan, ContractError>(
            deploy_outcome(*ctx, project_name@, code@.len())->Err_0,
        ),
        r is Ok ==> {
            let p = r->Ok_0;
            &&& p.subaccount@ == subaccount_of(project_name@, ctx.current_account_id@)
            &&& p.attached == ctx.attached_deposit
            &&& p.code@ == code@
            &&& p.init_args.caller == ctx.current_account_id
            &&& p.public_key == public_key
            &&& p.refund_to == ctx.predecessor_account_id
        },
{
    let mut subaccount = project_name;
    proof {
        reveal_strlit(".");
        assert("."@ =~= seq!['.']);
    }
    subaccount.append(".");
    subaccount.append(ctx.current_account_id.as_str());
    assert(subaccount@ =~= subaccount_of(project_name@, ctx.current_account_id@));
    if !is_valid_account_id(&subaccount) {
        return Err(ContractError::InvalidSubaccount);
    }
    let minimum_needed = minimum_deposit_for(code.len());
    if ctx.attached_deposit < minimum_needed {
        return Err(ContractError::InsufficientDeposit(minimum_needed));
    }
    Ok(DeployPlan {
        subaccount,
        attached: ctx.attached_deposit,
        code: code.clone(),
        init_args: ContractInitArgs { caller: copy_string(&ctx.current_account_id) },
        public_key,
        refund_to: copy_string(&ctx.predecessor_account_id),
    })
}

fn settle(user: AccountId, attached: u128, create_deploy_result: &Result<(), PromiseError>) -> (r: (
    bool,
    Option<Refund>,
))
    ensures
        r == settlement(user, attached, create_deploy_result is Ok),
{
    match create_deploy_result {
        Ok(_) => (true, None),
        Err(_) => (false, Some(Refund { receiver: user, amount: attached })),
    }
}

pub open spec fn listed(s: Seq<AccountId>, a: Seq<char>) -> bool {
    exists|i: int| 0 <= i < s.len() && (#[trigger] s[i])@ == a
}

fn find_account(s: &Vec<AccountId>, a: &AccountId) -> (r: bool)
    ensures
        r == listed(s@, a@),
{
    let mut i: usize = 0;
    while i < s.len()
        invariant
            0 <= i <= s@.len(),
            forall|j: int| 0 <= j < i ==> (#[trigger] s@[j])@ != a@,
        decreases s@.len() - i,
    {
        if s[i] == *a {
            assert(s@[i as int]@ == a@);
            return true;
        }
        i += 1;
    }
    false
}

fn add_account(s: &mut Vec<AccountId>, a: AccountId)
    ensures
        forall|x: Seq<char>| listed(final(s)@, x) <==> listed(old(s)@, x) || x == a@,
{
    if !find_account(s, &a) {
        let ghost prev = s@;
        s.push(a);
        assert forall|x: Seq<char>| listed(s@, x) <==> listed(prev, x) || x == a@ by {
            if listed(s@, x) && x != a@ {
                let i = choose|i: int| 0 <= i < s@.len() && (#[trigger] s@[i])@ == x;
                assert(prev[i]@ == x);
            }
            if listed(prev, x) {
                let i = choose|i: int| 0 <= i < prev.len() && (#[trigger] prev[i])@ == x;
                assert(s@[i]@ == x);
            }
            if x == a@ {
                assert(s@[prev.len() as int]@ == x);
            }
        }
    }
}

/// The factory that also keeps the registry of accounts allowed to bid and
/// to test, and the list of tenders it deployed.
pub struct MainContract {
    bidding_contracts: Vec<AccountId>,
    code: Vec<u8>,
    bidding_list: Vec<AccountId>,
    testing_list: Vec<AccountId>,
}

impl MainContract {
    /// The deployed tenders, in order of confirmed deployment.
    pub closed spec fn contracts_spec(&self) -> Seq<AccountId> {
        self.bidding_contracts@
    }

    /// The code installed on each new tender.
    pub closed spec fn code_spec(&self) -> Seq<u8> {
        self.code@
    }

    pub closed spec fn in_bidding_list(&self, a: Seq<char>) -> bool {
        listed(self.bidding_list@, a)
    }

    pub closed spec fn in_testing_list(&self, a: Seq<char>) -> bool {
        listed(self.testing_list@, a)
    }

    /// A factory that deploys `code`, with empty tables.
    pub fn new(code: Vec<u8>) -> (r: Self)
        ensures
            r.code_spec() == code@,
            r.contracts_spec().len() == 0,
            forall|a: Seq<char>| !r.in_bidding_list(a) && !r.in_testing_list(a),
    {
        MainContract {
            bidding_contracts: Vec::new(),
            code,
            bidding_list: Vec::new(),
            testing_list: Vec::new(),
        }
    }

    /// Admits `account_id` to bidding; only the contract itself may do so.
    pub fn add_to_bidding_list(&mut self, ctx: &CallContext, account_id: AccountId) -> (r: Result<
        (),
        ContractError,
    >)
        ensures
            r is Err <==> ctx.predecessor_account_id@ != ctx.current_account_id@,
            r is Err ==> r == Err::<(), ContractError>(ContractError::PrivateMethod),
            r is Err ==> *final(self) == *old(self),
            r is Ok ==> forall|a: Seq<char>|
                final(self).in_bidding_list(a) <==> old(self).in_bidding_list(a) || a == account_id@,
            forall|a: Seq<char>| final(self).in_testing_list(a) == old(self).in_testing_list(a),
            final(self).contracts_spec() == old(self).contracts_spec(),
            final(self).code_spec() == old(self).code_spec(),
    {
        if ctx.predecessor_account_id != ctx.current_account_id {
            return Err(ContractError::PrivateMethod);
        }
        add_account(&mut self.bidding_list, account_id);
        Ok(())
    }

    /// Admits `account_id` to testing; only the contract itself may do so.
    pub fn add_to_testing_list(&mut self, ctx: &CallContext, account_id: AccountId) -> (r: Result<
        (),
        ContractError,
    >)
        ensures
            r is Err <==> ctx.predecessor_account_id@ != ctx.current_account_id@,
            r is Err ==> r == Err::<(), ContractError>(ContractError::PrivateMethod),
            r is Err ==> *final(self) == *old(self),
            r is Ok ==> forall|a: Seq<char>|
                final(self).in_testing_list(a) <==> old(self).in_testing_list(a) || a == account_id@,
            forall|a: Seq<char>| final(self).in_bidding_list(a) == old(self).in_bidding_list(a),
            final(self).contracts_spec() == old(self).contracts_spec(),
            final(self).code_spec() == old(self).code_spec(),
    {
        if ctx.predecessor_account_id != ctx.current_account_id {
            return Err(ContractError::PrivateMethod);
        }
        add_account(&mut self.testing_list, account_id);
        Ok(())
    }

    pub fn is_in_bidding_list(&self, account_id: &AccountId) -> (r: bool)
        ensures
            r == self.in_bidding_list(account_id@),
    {
        find_account(&self.bidding_list, account_id)
    }

    pub fn is_in_testing_list(&self, account_id: &AccountId) -> (r: bool)
        ensures
            r == self.in_testing_list(account_id@),
    {
        find_account(&self.testing_list, account_id)
    }

    pub fn view_contracts(&self) -> (r: Vec<AccountId>)
        ensures
            r@ == self.contracts_spec(),
    {
        self.bidding_contracts.clone()
    }

    /// Plans the deployment of a tender named `project_name` under this
    /// account, owned by this account and funded with the attached deposit.
    /// Only the contract itself may ask; a malformed name or a deposit below
    /// the cost of storing the code is refused before anything moves.
    pub fn create_factory_subaccount_and_deploy(
        &self,
        ctx: &CallContext,
        project_name: String,
        public_key: Option<PublicKey>,
    ) -> (r: Result<DeployPlan, ContractError>)
        ensures
            ctx.predecessor_account_id@ != ctx.current_account_id@ ==> r == Err::<
                DeployPlan,
                ContractError,
            >(ContractError::PrivateMethod),
            ctx.predecessor_account_id@ == ctx.current_account_id@ ==> {
                &&& r is Ok <==> deploy_outcome(*ctx, project_name@, self.code_spec().len()) is Ok
                &&& r is Err ==> r == Err::<DeployPlan, ContractError>(
                    deploy_outcome(*ctx, project_name@, self.code_spec().len())->Err_0,
                )
            },
            r is Ok ==> {
                let p = r->Ok_0;
                &&& p.subaccount@ == subaccount_of(project_name@, ctx.current_account_id@)
                &&& p.attached == ctx.attached_deposit
                &&& p.code@ == self.code_spec()
                &&& p.init_args.caller == ctx.current_account_id
                &&& p.public_key == public_key
                &&& p.refund_to == ctx.predecessor_account_id
            },
    {
        if ctx.predecessor_account_id != ctx.current_account_id {
            return Err(ContractError::PrivateMethod);
        }
        plan_deployment(ctx, project_name, &self.code, public_key)
    }

    /// Settles a deployment: on success the new tender is recorded; on
    /// failure the whole deposit goes back to `user` and nothing is recorded.
    pub fn create_factory_subaccount_and_deploy_callback(
        &mut self,
        account: AccountId,
        user: AccountId,
        attached: u128,
        create_deploy_result: Result<(), PromiseError>,
    ) -> (r: (bool, Option<Refund>))
        ensures
            r == settlement(user, attached, create_deploy_result is Ok),
            final(self).contracts_spec() == (if create_deploy_result is Ok {
                old(self).contracts_spec().push(account)
            } else {
                old(self).contracts_spec()
            }),
            final(self).code_spec() == old(self).code_spec(),
            forall|a: Seq<char>| final(self).in_bidding_list(a) == old(self).in_bidding_list(a),
            forall|a: Seq<char>| final(self).in_testing_list(a) == old(self).in_testing_list(a),
    {
        if create_deploy_result.is_ok() {
            self.bidding_contracts.push(account);
        }
        settle(user, attached, &create_deploy_result)
    }
}

/// A factory that only deploys tenders and records them.
pub struct BiddingContractFactory {
    bidding_contracts: Vec<AccountId>,
    code: Vec<u8>,
}

impl BiddingContractFactory {
    pub closed spec fn contracts_spec(&self) -> Seq<AccountId> {
        self.bidding_contracts@
    }

    pub closed spec fn code_spec(&self) -> Seq<u8> {
        self.code@
    }

    pub fn new(code: Vec<u8>) -> (r: Self)
        ensures
            r.code_spec() == code@,
            r.contracts_spec().len() == 0,
    {
        BiddingContractFactory { bidding_contracts: Vec::new(), code }
    }

    pub fn view_contracts(&self) -> (r: Vec<AccountId>)
        ensures
            r@ == self.contracts_spec(),
    {
        self.bidding_contracts.clone()
    }

    /// Plans the deployment of a tender named `name` under this account,
    /// for any caller who attaches enough to store the code.
    pub fn create_factory_subaccount_and_deploy(
        &self,
        ctx: &CallContext,
        name: String,
        public_key: Option<PublicKey>,
    ) -> (r: Result<DeployPlan, ContractError>)
        ensures
            r is Ok <==> deploy_outcome(*ctx, name@, self.code_spec().len()) is Ok,
            r is Err ==> r == Err::<DeployPlan, ContractError>(
                deploy_outcome(*ctx, name@, self.code_spec().len())->Err_0,
            ),
            r is Ok ==> {
                let p = r->Ok_0;
                &&& p.subaccount@ == subaccount_of(name@, ctx.current_account_id@)
                &&& p.attached == ctx.attached_deposit
                &&& p.code@ == self.code_spec()
                &&& p.init_args.caller == ctx.current_account_id
                &&& p.public_key == public_key
                &&& p.refund_to == ctx.predecessor_account_id
            },
    {
        plan_deployment(ctx, name, &self.code, public_key)
    }

    /// Settles a deployment as [`MainContract`] does.
    pub fn create_factory_subaccount_and_deploy_callback(
        &mut self,
        account: AccountId,
        user: AccountId,
        attached: u128,
        create_deploy_result: Result<(), PromiseError>,
    ) -> (r: (bool, Option<Refund>))
        ensures
            r == settlement(user, attached, create_deploy_result is Ok),
            final(self).contracts_spec() == (if create_deploy_result is Ok {
                old(self).contracts_spec().push(account)
            } else {
                old(self).contracts_spec()
            }),
            final(self).code_spec() == old(self).code_spec(),
    {
        if create_deploy_result.is_ok() {
            self.bidding_contracts.push(account);
        }
        settle(user, attached, &create_deploy_result)
    }
}

/// A request whose deposit does not cover the code is refused, so no account
/// is created and no funds move.
pub proof fn lemma_underfunded_deploy_refused(ctx: CallContext, name: Seq<char>, code_len: nat)
    requires
        (ctx.attached_deposit as int) < minimum_deposit(code_len),
    ensures
        deploy_outcome(ctx, name, code_len) is Err,
{
}

/// When the deployment fails after the deposit left the caller, the refund
/// goes to that caller and restores their balance exactly.
pub proof fn lemma_failed_deploy_refunds_in_full(user: AccountId, attached: u128, balance: int)
    ensures
        settlement(user, attached, false).1 is Some,
        settlement(user, attached, false).1.unwrap().receiver == user,
        balance - attached + settlement(user, attached, false).1.unwrap().amount == balance,
{
}

/// An account that the registry does not list never gets a bid stored: the
/// registry answers no about it, or the answer is lost, and either way the
/// bid is refused (and a refused call changes nothing).
pub proof fn lemma_unlisted_account_cannot_bid(
    registry: MainContract,
    tender: BiddingContract,
    account: AccountId,
    answer: Result<bool, PromiseError>,
)
    requires
        !registry.in_bidding_list(account@),
        answer == Ok::<bool, PromiseError>(registry.in_bidding_list(account@)) || answer is Err,
    ensures
        !registry_allows(answer),
        tender.place_bid_outcome(answer) == Err::<(), ContractError>(ContractError::NotPermitted),
{
}

} // verus!
