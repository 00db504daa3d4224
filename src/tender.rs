use vstd::prelude::*;
use near_sdk::PromiseError;
use crate::account::{AccountId, CallContext, ContractError, copy_string, copy_opt_string};
use crate::auth::{PendingCall, RegistryList, RegistryQuery, is_allowed, registry_allows};

verus! {

/// A bid: who bids, at what price, and a reference to its documents.
#[derive(Debug, PartialEq, Eq)]
pub struct Bid {
    pub bidder_name: String,
    pub price: u64,
    pub database_hash: String,
}

/// A construction milestone. It is pending while both optional fields are
/// absent and completed once both are present.
#[derive(Debug, PartialEq, Eq)]
pub struct Milestone {
    pub description: String,
    pub due_date: u64,
    pub completion_date: Option<u64>,
    pub database_hash: Option<String>,
}

/// An acceptance test of the finished work.
#[derive(Debug, PartialEq, Eq)]
pub struct Test {
    pub description: String,
    pub success: bool,
    pub database_hash: Option<String>,
}

/// A public comment posted during the survey.
#[derive(Debug, PartialEq, Eq)]
pub struct Comment {
    pub commenter: AccountId,
    pub thumbs_up: bool,
    pub message: String,
}

/// The lifecycle phase of a tender.
#[derive(Debug, Clone, Copy, PartialEq, Eq, Structural)]
pub enum ContractState {
    Disabled,
    Survey,
    Bidding,
    Selected,
    Construction,
    Inspection,
    PreCompleted,
    Testing,
    Completed,
}

/// Position of a phase in the lifecycle order; `Disabled` comes after all.
pub open spec fn phase_rank(s: ContractState) -> int {
    match s {
        ContractState::Survey => 0,
        ContractState::Bidding => 1,
        ContractState::Selected => 2,
        ContractState::Construction => 3,
        ContractState::Inspection => 4,
        ContractState::PreCompleted => 5,
        ContractState::Testing => 6,
        ContractState::Completed => 7,
        ContractState::Disabled => 8,
    }
}

/// The phase changes that some operation performs.
pub open spec fn advances_to(from: ContractState, to: ContractState) -> bool {
    ||| to == ContractState::Disabled
    ||| (from == ContractState::Survey && to == ContractState::Bidding)
    ||| (from == ContractState::Bidding && to == ContractState::Selected)
    ||| (from == ContractState::Selected && to == ContractState::Construction)
    ||| (from == ContractState::Construction && to == ContractState::PreCompleted)
    ||| (from == ContractState::PreCompleted && to == ContractState::Testing)
}

// ---------------------------------------------------------------------------
// Keyed tables kept as sequences of (key, value) with distinct keys, in the
// order in which keys were first inserted.

pub open spec fn keys_unique<V>(s: Seq<(String, V)>) -> bool {
    forall|i: int, j: int|
        0 <= i < s.len() && 0 <= j < s.len() && (#[trigger] s[i]).0@ == (#[trigger] s[j]).0@
            ==> i == j
}

pub open spec fn has_key<V>(s: Seq<(String, V)>, k: Seq<char>) -> bool {
    exists|i: int| 0 <= i < s.len() && (#[trigger] s[i]).0@ == k
}

/// The position of key `k`, or -1 where it is absent.
pub open spec fn index_of<V>(s: Seq<(String, V)>, k: Seq<char>) -> int {
    if has_key(s, k) {
        choose|i: int| 0 <= i < s.len() && (#[trigger] s[i]).0@ == k
    } else {
        -1
    }
}

/// The value stored under key `k`.
pub open spec fn lookup<V>(s: Seq<(String, V)>, k: Seq<char>) -> Option<V> {
    if has_key(s, k) {
        Some(s[index_of(s, k)].1)
    } else {
        None
    }
}

/// Stores `v` under `key`: replaces the value of an existing entry in place,
/// or appends a new entry.
pub open spec fn upsert<V>(s: Seq<(String, V)>, key: String, v: V) -> Seq<(String, V)> {
    if has_key(s, key@) {
        let i = index_of(s, key@);
        s.update(i, (s[i].0, v))
    } else {
        s.push((key, v))
    }
}

/// Stores every entry of `items` in order, later entries overwriting earlier ones.
pub open spec fn upsert_all<V>(s: Seq<(String, V)>, items: Seq<(String, V)>) -> Seq<(String, V)>
    decreases items.len(),
{
    if items.len() == 0 {
        s
    } else {
        upsert(upsert_all(s, items.drop_last()), items.last().0, items.last().1)
    }
}

proof fn lemma_index_of<V>(s: Seq<(String, V)>, i: int)
    requires
        keys_unique(s),
        0 <= i < s.len(),
    ensures
        has_key(s, s[i].0@),
        index_of(s, s[i].0@) == i,
{
    assert(s[i].0@ == s[i].0@);
}

/// Storing a value makes it the one found under its key, and leaves every
/// other key as it was.
pub proof fn lemma_upsert<V>(s: Seq<(String, V)>, key: String, v: V)
    requires
        keys_unique(s),
    ensures
        keys_unique(upsert(s, key, v)),
        lookup(upsert(s, key, v), key@) == Some(v),
        forall|k: Seq<char>| k != key@ ==> lookup(upsert(s, key, v), k) == lookup(s, k),
{
    let t = upsert(s, key, v);
    if has_key(s, key@) {
        let i = index_of(s, key@);
        assert(t[i].0@ == key@);
        lemma_index_of(t, i);
        assert forall|k: Seq<char>| k != key@ implies lookup(t, k) == lookup(s, k) by {
            if has_key(s, k) {
                let j = index_of(s, k);
                assert(t[j].0@ == k);
                lemma_index_of(t, j);
            } else if has_key(t, k) {
                let j = choose|j: int| 0 <= j < t.len() && (#[trigger] t[j]).0@ == k;
                assert(s[j].0@ == k);
            }
        }
    } else {
        let n = s.len() as int;
        assert forall|i: int, j: int|
            0 <= i < t.len() && 0 <= j < t.len() && (#[trigger] t[i]).0@ == (#[trigger] t[j]).0@
            implies i == j by {
            if i < n && j == n {
                assert(s[i].0@ == key@);
            } else if i == n && j < n {
                assert(s[j].0@ == key@);
            }
        }
        assert(t[n].0@ == key@);
        lemma_index_of(t, n);
        assert forall|k: Seq<char>| k != key@ implies lookup(t, k) == lookup(s, k) by {
            if has_key(s, k) {
                let j = index_of(s, k);
                assert(t[j].0@ == k);
                lemma_index_of(t, j);
            } else if has_key(t, k) {
                let j = choose|j: int| 0 <= j < t.len() && (#[trigger] t[j]).0@ == k;
                assert(s[j].0@ == k);
            }
        }
    }
}

fn find_key<V>(v: &Vec<(String, V)>, k: &String) -> (r: Option<usize>)
    requires
        keys_unique(v@),
    ensures
        r.is_some() == has_key(v@, k@),
        r.is_some() ==> r.unwrap() as int == index_of(v@, k@),
{
    let mut i: usize = 0;
    while i < v.len()
        invariant
            0 <= i <= v.len(),
            keys_unique(v@),
            forall|j: int| 0 <= j < i ==> (#[trigger] v@[j]).0@ != k@,
        decreases v.len() - i,
    {
        if v[i].0 == *k {
            proof {
                lemma_index_of(v@, i as int);
            }
            return Some(i);
        }
        i += 1;
    }
    None
}

fn upsert_entry<V>(v: &mut Vec<(String, V)>, key: String, val: V)
    requires
        keys_unique(old(v)@),
    ensures
        final(v)@ == upsert(old(v)@, key, val),
        keys_unique(final(v)@),
{
    proof {
        lemma_upsert(v@, key, val);
    }
    match find_key(v, &key) {
        Some(i) => {
            let k = copy_string(&v[i].0);
            v.set(i, (k, val));
        },
        None => {
            v.push((key, val));
        },
    }
}


fn copy_bid(b: &Bid) -> (r: Bid)
    ensures
        r == *b,
{
    Bid {
        bidder_name: copy_string(&b.bidder_name),
        price: b.price,
        database_hash: copy_string(&b.database_hash),
    }
}

fn copy_milestone(m: &Milestone) -> (r: Milestone)
    ensures
        r == *m,
{
    Milestone {
        description: copy_string(&m.description),
        due_date: m.due_date,
        completion_date: m.completion_date,
        database_hash: copy_opt_string(&m.database_hash),
    }
}

fn copy_comment(c: &Comment) -> (r: Comment)
    ensures
        r == *c,
{
    Comment {
        commenter: copy_string(&c.commenter),
        thumbs_up: c.thumbs_up,
        message: copy_string(&c.message),
    }
}

pub open spec fn is_pending(m: Milestone) -> bool {
    m.completion_date.is_none() && m.database_hash.is_none()
}

/// The milestone at position `i`, marked completed at `now` with `hash`.
pub open spec fn complete_at(
    s: Seq<(String, Milestone)>,
    i: int,
    now: u64,
    hash: String,
) -> Seq<(String, Milestone)> {
    s.update(
        i,
        (
            s[i].0,
            Milestone {
                description: s[i].1.description,
                due_date: s[i].1.due_date,
                completion_date: Some(now),
                database_hash: Some(hash),
            },
        ),
    )
}

/// One tender: its bids, comments, milestones, owner, winner and phase.
pub struct BiddingContract {
    bids: Vec<(AccountId, Bid)>,
    winning_bidder: Option<AccountId>,
    owner: AccountId,
    state: ContractState,
    comments: Vec<Comment>,
    milestones: Vec<(String, Milestone)>,
}

impl BiddingContract {
    /// The bids, one per bidder account, in order of first submission.
    pub closed spec fn bids_spec(&self) -> Seq<(AccountId, Bid)> {
        self.bids@
    }

    pub closed spec fn winner_spec(&self) -> Option<AccountId> {
        self.winning_bidder
    }

    pub closed spec fn owner_spec(&self) -> AccountId {
        self.owner
    }

    pub closed spec fn state_spec(&self) -> ContractState {
        self.state
    }

    pub closed spec fn comments_spec(&self) -> Seq<Comment> {
        self.comments@
    }

    /// The milestones, one per name, in order of insertion.
    pub closed spec fn milestones_spec(&self) -> Seq<(String, Milestone)> {
        self.milestones@
    }

    pub open spec fn wf(&self) -> bool {
        keys_unique(self.bids_spec()) && keys_unique(self.milestones_spec())
    }

    pub open spec fn is_owner(&self, a: Seq<char>) -> bool {
        self.owner_spec()@ == a
    }

    pub open spec fn is_winner(&self, a: Seq<char>) -> bool {
        self.winner_spec() is Some && self.winner_spec().unwrap()@ == a
    }

    /// The bid stored for account `a`.
    pub open spec fn bid_of(&self, a: Seq<char>) -> Option<Bid> {
        lookup(self.bids_spec(), a)
    }

    /// What [`Self::place_bid_callback`] answers, given the registry's answer.
    pub open spec fn place_bid_outcome(&self, answer: Result<bool, PromiseError>) -> Result<
        (),
        ContractError,
    > {
        if !registry_allows(answer) {
            Err(ContractError::NotPermitted)
        } else if self.state_spec() != ContractState::Bidding {
            Err(ContractError::WrongState(ContractState::Bidding))
        } else {
            Ok(())
        }
    }

    /// What [`Self::update_milestone`] answers when `signer` reports milestone `name`.
    pub open spec fn update_milestone_outcome(&self, signer: Seq<char>, name: Seq<char>) -> Result<
        (),
        ContractError,
    > {
        if self.state_spec() != ContractState::Construction {
            Err(ContractError::WrongState(ContractState::Construction))
        } else if !self.is_winner(signer) {
            Err(ContractError::NotWinner)
        } else if !has_key(self.milestones_spec(), name) {
            Err(ContractError::MilestoneNotFound)
        } else if !is_pending(lookup(self.milestones_spec(), name).unwrap()) {
            Err(ContractError::MilestoneAlreadyAchieved)
        } else {
            Ok(())
        }
    }

    /// Everything but the bids is as in `other`.
    pub open spec fn same_but_bids(&self, other: &Self) -> bool {
        &&& self.winner_spec() == other.winner_spec()
        &&& self.owner_spec() == other.owner_spec()
        &&& self.state_spec() == other.state_spec()
        &&& self.comments_spec() == other.comments_spec()
        &&& self.milestones_spec() == other.milestones_spec()
    }

    /// Only the phase may differ from `other`.
    pub open spec fn same_but_state(&self, other: &Self) -> bool {
        &&& self.bids_spec() == other.bids_spec()
        &&& self.winner_spec() == other.winner_spec()
        &&& self.owner_spec() == other.owner_spec()
        &&& self.comments_spec() == other.comments_spec()
        &&& self.milestones_spec() == other.milestones_spec()
    }

    /// A tender in the survey phase, owned by `caller`, with nothing in it.
    pub fn init(caller: AccountId) -> (r: Self)
        ensures
            r.wf(),
            r.owner_spec() == caller,
            r.state_spec() == ContractState::Survey,
            r.winner_spec() is None,
            r.bids_spec().len() == 0,
            r.comments_spec().len() == 0,
            r.milestones_spec().len() == 0,
    {
        BiddingContract {
            bids: Vec::new(),
            winning_bidder: None,
            owner: caller,
            state: ContractState::Survey,
            comments: Vec::new(),
            milestones: Vec::new(),
        }
    }

    pub fn view_owner(&self) -> (r: &AccountId)
        ensures
            *r == self.owner_spec(),
    {
        &self.owner
    }

    pub fn view_state(&self) -> (r: ContractState)
        ensures
            r == self.state_spec(),
    {
        self.state
    }

    pub fn only_owner(&self, ctx: &CallContext) -> (r: bool)
        ensures
            r == self.is_owner(ctx.signer_account_id@),
    {
        ctx.signer_account_id == self.owner
    }

    pub fn only_winner(&self, ctx: &CallContext) -> (r: bool)
        ensures
            r == self.is_winner(ctx.signer_account_id@),
    {
        match &self.winning_bidder {
            Some(w) => *w == ctx.signer_account_id,
            None => false,
        }
    }

    /// Asks the registry (the owner) whether the signer may bid; the bid
    /// itself is stored by [`Self::place_bid_callback`] once it answers.
    pub fn place_bid(
        &self,
        ctx: &CallContext,
        price: u64,
        bidder_name: String,
        database_hash: String,
    ) -> (q: RegistryQuery)
        ensures
            q.registry == self.owner_spec(),
            q.account_id == ctx.signer_account_id,
            q.list == RegistryList::Bidding,
            q.resume == (PendingCall::PlaceBid { price, bidder_name, database_hash }),
    {
        RegistryQuery {
            registry: copy_string(&self.owner),
            account_id: copy_string(&ctx.signer_account_id),
            list: RegistryList::Bidding,
            resume: PendingCall::PlaceBid { price, bidder_name, database_hash },
        }
    }

    /// Stores the signer's bid, replacing any earlier one, if the registry
    /// allowed it and the tender is (still) open for bidding.
    pub fn place_bid_callback(
        &mut self,
        ctx: &CallContext,
        is_allowed_answer: Result<bool, PromiseError>,
        price: u64,
        bidder_name: String,
        database_hash: String,
    ) -> (r: Result<(), ContractError>)
        requires
            old(self).wf(),
        ensures
            final(self).wf(),
            r == old(self).place_bid_outcome(is_allowed_answer),
            r is Err ==> *final(self) == *old(self),
            r is Ok ==> final(self).same_but_bids(old(self)),
            r is Ok ==> final(self).bids_spec() == upsert(
                old(self).bids_spec(),
                ctx.signer_account_id,
                (Bid { bidder_name, price, database_hash }),
            ),
    {
        if !is_allowed(&is_allowed_answer) {
            return Err(ContractError::NotPermitted);
        }
        if self.state != ContractState::Bidding {
            return Err(ContractError::WrongState(ContractState::Bidding));
        }
        let bidder = copy_string(&ctx.signer_account_id);
        upsert_entry(&mut self.bids, bidder, Bid { bidder_name, price, database_hash });
        Ok(())
    }

    pub fn view_bids(&self) -> (r: Vec<(AccountId, Bid)>)
        ensures
            r@ == self.bids_spec(),
    {
        let mut out: Vec<(AccountId, Bid)> = Vec::new();
        let mut i: usize = 0;
        while i < self.bids.len()
            invariant
                0 <= i <= self.bids@.len(),
                out@ == self.bids@.subrange(0, i as int),
            decreases self.bids@.len() - i,
        {
            let e = &self.bids[i];
            out.push((copy_string(&e.0), copy_bid(&e.1)));
            proof {
                assert(out@ =~= self.bids@.subrange(0, i + 1));
            }
            i += 1;
        }
        proof {
            assert(out@ =~= self.bids@);
        }
        out
    }

    pub fn get_bid_by_bidder(&self, bidder: &AccountId) -> (r: Option<Bid>)
        requires
            self.wf(),
        ensures
            r == self.bid_of(bidder@),
    {
        match find_key(&self.bids, bidder) {
            Some(i) => Some(copy_bid(&self.bids[i].1)),
            None => None,
        }
    }

    /// The bid of the chosen winner, if a winner was chosen and has a bid.
    pub fn get_winner(&self) -> (r: Option<Bid>)
        requires
            self.wf(),
        ensures
            r == (match self.winner_spec() {
                Some(w) => self.bid_of(w@),
                None => None,
            }),
    {
        match &self.winning_bidder {
            Some(w) => self.get_bid_by_bidder(w),
            None => None,
        }
    }

    /// Records a winner and its milestones and closes the bidding.
    pub fn choose_winner(
        &mut self,
        ctx: &CallContext,
        bidder: AccountId,
        milestones: Vec<(String, Milestone)>,
        _tests: Vec<(String, Test)>,
    ) -> (r: Result<(), ContractError>)
        requires
            old(self).wf(),
        ensures
            final(self).wf(),
            r == (if old(self).state_spec() != ContractState::Bidding {
                Err(ContractError::WrongState(ContractState::Bidding))
            } else if !old(self).is_owner(ctx.signer_account_id@) {
                Err(ContractError::NotOwner)
            } else {
                Ok(())
            }),
            r is Err ==> *final(self) == *old(self),
            r is Ok ==> final(self).winner_spec() == Some(bidder),
            r is Ok ==> final(self).milestones_spec() == upsert_all(
                old(self).milestones_spec(),
                milestones@,
            ),
            r is Ok ==> final(self).state_spec() == ContractState::Selected,
            r is Ok ==> final(self).bids_spec() == old(self).bids_spec(),
            r is Ok ==> final(self).owner_spec() == old(self).owner_spec(),
            r is Ok ==> final(self).comments_spec() == old(self).comments_spec(),
    {
        if self.state != ContractState::Bidding {
            return Err(ContractError::WrongState(ContractState::Bidding));
        }
        if !self.only_owner(ctx) {
            return Err(ContractError::NotOwner);
        }
        self.winning_bidder = Some(bidder);
        self.insert_map_into_unordered_map(&milestones);
        self.state = ContractState::Selected;
        Ok(())
    }

    fn insert_map_into_unordered_map(&mut self, map_arg: &Vec<(String, Milestone)>)
        requires
            keys_unique(old(self).milestones@),
        ensures
            keys_unique(final(self).milestones@),
            final(self).milestones@ == upsert_all(old(self).milestones@, map_arg@),
            final(self).bids == old(self).bids,
            final(self).winning_bidder == old(self).winning_bidder,
            final(self).owner == old(self).owner,
            final(self).state == old(self).state,
            final(self).comments == old(self).comments,
    {
        let mut i: usize = 0;
        while i < map_arg.len()
            invariant
                0 <= i <= map_arg@.len(),
                keys_unique(self.milestones@),
                self.milestones@ == upsert_all(
                    old(self).milestones@,
                    map_arg@.subrange(0, i as int),
                ),
                self.bids == old(self).bids,
                self.winning_bidder == old(self).winning_bidder,
                self.owner == old(self).owner,
                self.state == old(self).state,
                self.comments == old(self).comments,
            decreases map_arg@.len() - i,
        {
            let key = copy_string(&map_arg[i].0);
            let value = copy_milestone(&map_arg[i].1);
            proof {
                let next = map_arg@.subrange(0, i + 1);
                assert(next.drop_last() =~= map_arg@.subrange(0, i as int));
                assert(next.last() == map_arg@[i as int]);
            }
            upsert_entry(&mut self.milestones, key, value);
            i += 1;
        }
        proof {
            assert(map_arg@.subrange(0, map_arg@.len() as int) =~= map_arg@);
        }
    }

    /// Posts a comment from the signer while the survey is open.
    pub fn place_comments(
        &mut self,
        ctx: &CallContext,
        thumbs_up: bool,
        message: String,
    ) -> (r: Result<(), ContractError>)
        ensures
            r == (if old(self).state_spec() != ContractState::Survey {
                Err(ContractError::WrongState(ContractState::Survey))
            } else {
                Ok(())
            }),
            r is Err ==> *final(self) == *old(self),
            r is Ok ==> final(self).comments_spec() == old(self).comments_spec().push(
                (Comment { commenter: ctx.signer_account_id, thumbs_up, message }),
            ),
            r is Ok ==> final(self).bids_spec() == old(self).bids_spec(),
            r is Ok ==> final(self).winner_spec() == old(self).winner_spec(),
            r is Ok ==> final(self).owner_spec() == old(self).owner_spec(),
            r is Ok ==> final(self).state_spec() == old(self).state_spec(),
            r is Ok ==> final(self).milestones_spec() == old(self).milestones_spec(),
    {
        if self.state != ContractState::Survey {
            return Err(ContractError::WrongState(ContractState::Survey));
        }
        let comment = Comment {
            commenter: copy_string(&ctx.signer_account_id),
            thumbs_up,
            message,
        };
        self.comments.push(comment);
        Ok(())
    }

    pub fn view_comments(&self) -> (r: Vec<Comment>)
        ensures
            r@ == self.comments_spec(),
    {
        let mut out: Vec<Comment> = Vec::new();
        let mut i: usize = 0;
        while i < self.comments.len()
            invariant
                0 <= i <= self.comments@.len(),
                out@ == self.comments@.subrange(0, i as int),
            decreases self.comments@.len() - i,
        {
            out.push(copy_comment(&self.comments[i]));
            proof {
                assert(out@ =~= self.comments@.subrange(0, i + 1));
            }
            i += 1;
        }
        proof {
            assert(out@ =~= self.comments@);
        }
        out
    }

    /// Moves the tender to `to` if it is in phase `from` and the signer holds
    /// the role; the phase is the only thing that changes.
    fn advance(
        &mut self,
        ctx: &CallContext,
        from: ContractState,
        to: ContractState,
        by_winner: bool,
    ) -> (r: Result<(), ContractError>)
        ensures
            r == (if old(self).state_spec() != from {
                Err(ContractError::WrongState(from))
            } else if by_winner && !old(self).is_winner(ctx.signer_account_id@) {
                Err(ContractError::NotWinner)
            } else if !by_winner && !old(self).is_owner(ctx.signer_account_id@) {
                Err(ContractError::NotOwner)
            } else {
                Ok(())
            }),
            r is Err ==> *final(self) == *old(self),
            r is Ok ==> final(self).same_but_state(old(self)),
            r is Ok ==> final(self).state_spec() == to,
    {
        if self.state != from {
            return Err(ContractError::WrongState(from));
        }
        if by_winner {
            if !self.only_winner(ctx) {
                return Err(ContractError::NotWinner);
            }
        } else if !self.only_owner(ctx) {
            return Err(ContractError::NotOwner);
        }
        self.state = to;
        Ok(())
    }

    /// The owner may disable the tender from any phase.
    pub fn set_state_to_disabled(&mut self, ctx: &CallContext) -> (r: Result<(), ContractError>)
        ensures
            r == (if !old(self).is_owner(ctx.signer_account_id@) {
                Err(ContractError::NotOwner)
            } else {
                Ok(())
            }),
            r is Err ==> *final(self) == *old(self),
            r is Ok ==> final(self).same_but_state(old(self)),
            r is Ok ==> final(self).state_spec() == ContractState::Disabled,
    {
        if !self.only_owner(ctx) {
            return Err(ContractError::NotOwner);
        }
        self.state = ContractState::Disabled;
        Ok(())
    }

    /// Survey to Bidding, by the owner.
    pub fn set_state_to_bid(&mut self, ctx: &CallContext) -> (r: Result<(), ContractError>)
        ensures
            r == (if old(self).state_spec() != ContractState::Survey {
                Err(ContractError::WrongState(ContractState::Survey))
            } else if !old(self).is_owner(ctx.signer_account_id@) {
                Err(ContractError::NotOwner)
            } else {
                Ok(())
            }),
            r is Err ==> *final(self) == *old(self),
            r is Ok ==> final(self).same_but_state(old(self)),
            r is Ok ==> final(self).state_spec() == ContractState::Bidding,
    {
        self.advance(ctx, ContractState::Survey, ContractState::Bidding, false)
    }

    /// Selected to Construction, by the owner.
    pub fn set_state_to_construction(&mut self, ctx: &CallContext) -> (r: Result<(), ContractError>)
        ensures
            r == (if old(self).state_spec() != ContractState::Selected {
                Err(ContractError::WrongState(ContractState::Selected))
            } else if !old(self).is_owner(ctx.signer_account_id@) {
                Err(ContractError::NotOwner)
            } else {
                Ok(())
            }),
            r is Err ==> *final(self) == *old(self),
            r is Ok ==> final(self).same_but_state(old(self)),
            r is Ok ==> final(self).state_spec() == ContractState::Construction,
    {
        self.advance(ctx, ContractState::Selected, ContractState::Construction, false)
    }

    /// Construction to PreCompleted, by the winner.
    pub fn set_state_to_precompleted(&mut self, ctx: &CallContext) -> (r: Result<(), ContractError>)
        ensures
            r == (if old(self).state_spec() != ContractState::Construction {
                Err(ContractError::WrongState(ContractState::Construction))
            } else if !old(self).is_winner(ctx.signer_account_id@) {
                Err(ContractError::NotWinner)
            } else {
                Ok(())
            }),
            r is Err ==> *final(self) == *old(self),
            r is Ok ==> final(self).same_but_state(old(self)),
            r is Ok ==> final(self).state_spec() == ContractState::PreCompleted,
    {
        self.advance(ctx, ContractState::Construction, ContractState::PreCompleted, true)
    }

    /// PreCompleted to Testing, by the owner.
    pub fn set_state_to_testing(&mut self, ctx: &CallContext) -> (r: Result<(), ContractError>)
        ensures
            r == (if old(self).state_spec() != ContractState::PreCompleted {
                Err(ContractError::WrongState(ContractState::PreCompleted))
            } else if !old(self).is_owner(ctx.signer_account_id@) {
                Err(ContractError::NotOwner)
            } else {
                Ok(())
            }),
            r is Err ==> *final(self) == *old(self),
            r is Ok ==> final(self).same_but_state(old(self)),
            r is Ok ==> final(self).state_spec() == ContractState::Testing,
    {
        self.advance(ctx, ContractState::PreCompleted, ContractState::Testing, false)
    }

    /// Marks a pending milestone completed at the current block time, with
    /// the given document reference. Milestones are reported during
    /// construction, by the winner, once each.
    pub fn update_milestone(
        &mut self,
        ctx: &CallContext,
        name: String,
        database_hash: String,
    ) -> (r: Result<(), ContractError>)
        requires
            old(self).wf(),
        ensures
            final(self).wf(),
            r == old(self).update_milestone_outcome(ctx.signer_account_id@, name@),
            r is Err ==> *final(self) == *old(self),
            r is Ok ==> final(self).milestones_spec() == complete_at(
                old(self).milestones_spec(),
                index_of(old(self).milestones_spec(), name@),
                ctx.block_timestamp,
                database_hash,
            ),
            r is Ok ==> final(self).bids_spec() == old(self).bids_spec(),
            r is Ok ==> final(self).winner_spec() == old(self).winner_spec(),
            r is Ok ==> final(self).owner_spec() == old(self).owner_spec(),
            r is Ok ==> final(self).state_spec() == old(self).state_spec(),
            r is Ok ==> final(self).comments_spec() == old(self).comments_spec(),
    {
        if self.state != ContractState::Construction {
            return Err(ContractError::WrongState(ContractState::Construction));
        }
        if !self.only_winner(ctx) {
            return Err(ContractError::NotWinner);
        }
        let i = match find_key(&self.milestones, &name) {
            Some(i) => i,
            None => {
                return Err(ContractError::MilestoneNotFound);
            },
        };
        let entry = &self.milestones[i];
        if entry.1.completion_date.is_some() || entry.1.database_hash.is_some() {
            return Err(ContractError::MilestoneAlreadyAchieved);
        }
        let key = copy_string(&entry.0);
        let done = Milestone {
            description: copy_string(&entry.1.description),
            due_date: entry.1.due_date,
            completion_date: Some(ctx.block_timestamp),
            database_hash: Some(database_hash),
        };
        proof {
            let s = self.milestones@;
            let t = complete_at(s, i as int, ctx.block_timestamp, database_hash);
            assert forall|a: int, b: int|
                0 <= a < t.len() && 0 <= b < t.len() && (#[trigger] t[a]).0@ == (#[trigger] t[b]).0@
                implies a == b by {
                assert(s[a].0@ == s[b].0@);
            }
        }
        self.milestones.set(i, (key, done));
        Ok(())
    }

    pub fn view_milestones(&self) -> (r: Vec<(String, Milestone)>)
        ensures
            r@ == self.milestones_spec(),
    {
        let mut out: Vec<(String, Milestone)> = Vec::new();
        let mut i: usize = 0;
        while i < self.milestones.len()
            invariant
                0 <= i <= self.milestones@.len(),
                out@ == self.milestones@.subrange(0, i as int),
            decreases self.milestones@.len() - i,
        {
            let e = &self.milestones[i];
            out.push((copy_string(&e.0), copy_milestone(&e.1)));
            proof {
                assert(out@ =~= self.milestones@.subrange(0, i + 1));
            }
            i += 1;
        }
        proof {
            assert(out@ =~= self.milestones@);
        }
        out
    }
}


/// The value of the last entry of `items` with key `k`.
pub open spec fn last_for<V>(items: Seq<(String, V)>, k: Seq<char>) -> Option<V>
    decreases items.len(),
{
    if items.len() == 0 {
        None
    } else if items.last().0@ == k {
        Some(items.last().1)
    } else {
        last_for(items.drop_last(), k)
    }
}

/// After a sequence of stores, the value found under a key is the one stored
/// last under that key; a key that was never stored keeps its old value.
pub proof fn lemma_latest_store_wins<V>(s: Seq<(String, V)>, items: Seq<(String, V)>, k: Seq<char>)
    requires
        keys_unique(s),
    ensures
        keys_unique(upsert_all(s, items)),
        lookup(upsert_all(s, items), k) == (match last_for(items, k) {
            Some(v) => Some(v),
            None => lookup(s, k),
        }),
    decreases items.len(),
{
    if items.len() > 0 {
        lemma_latest_store_wins(s, items.drop_last(), k);
        lemma_upsert(upsert_all(s, items.drop_last()), items.last().0, items.last().1);
    }
}

/// Of the bids that one account places, only the latest can be retrieved.
pub proof fn lemma_latest_bid_wins(c: BiddingContract, bids: Seq<(AccountId, Bid)>, a: AccountId)
    requires
        c.wf(),
        bids.len() > 0,
        forall|i: int| 0 <= i < bids.len() ==> (#[trigger] bids[i]).0@ == a@,
    ensures
        lookup(upsert_all(c.bids_spec(), bids), a@) == Some(bids.last().1),
{
    lemma_latest_store_wins(c.bids_spec(), bids, a@);
}

/// Each phase change leads forward in the lifecycle order, or to `Disabled`.
pub proof fn lemma_advance_is_forward(from: ContractState, to: ContractState)
    requires
        advances_to(from, to),
    ensures
        to == ContractState::Disabled || phase_rank(from) < phase_rank(to),
        phase_rank(from) <= phase_rank(to),
{
}

/// Along any run of phase changes the phase never moves back.
pub proof fn lemma_phases_never_go_back(states: Seq<ContractState>)
    requires
        forall|i: int|
            0 <= i < states.len() - 1 ==> states[i + 1] == states[i] || advances_to(
                #[trigger] states[i],
                states[i + 1],
            ),
    ensures
        forall|i: int, j: int|
            0 <= i <= j < states.len() ==> phase_rank(#[trigger] states[i]) <= phase_rank(
                #[trigger] states[j],
            ),
    decreases states.len(),
{
    if states.len() > 1 {
        let init = states.drop_last();
        assert forall|i: int| 0 <= i < init.len() - 1 implies init[i + 1] == init[i] || advances_to(
            #[trigger] init[i],
            init[i + 1],
        ) by {
            assert(init[i] == states[i] && init[i + 1] == states[i + 1]);
        }
        lemma_phases_never_go_back(init);
        let n = states.len() - 1;
        assert(states[n] == states[n - 1] || advances_to(states[n - 1], states[n]));
        assert forall|i: int, j: int| 0 <= i <= j < states.len() implies phase_rank(
            #[trigger] states[i],
        ) <= phase_rank(#[trigger] states[j]) by {
            if j < n {
                assert(init[i] == states[i] && init[j] == states[j]);
            } else if i < n {
                assert(init[i] == states[i] && init[n - 1] == states[n - 1]);
            }
        }
    }
}

/// Once a winner has been chosen the tender never returns to bidding, so no
/// later call can choose a winner again.
pub proof fn lemma_winner_chosen_once(states: Seq<ContractState>)
    requires
        states.len() > 0,
        states[0] == ContractState::Selected,
        forall|i: int|
            0 <= i < states.len() - 1 ==> states[i + 1] == states[i] || advances_to(
                #[trigger] states[i],
                states[i + 1],
            ),
    ensures
        forall|i: int| 0 <= i < states.len() ==> #[trigger] states[i] != ContractState::Bidding,
{
    lemma_phases_never_go_back(states);
    assert forall|i: int| 0 <= i < states.len() implies #[trigger] states[i] != ContractState::Bidding by {
        assert(phase_rank(states[0]) <= phase_rank(states[i]));
    }
}

/// A milestone that was just completed cannot be completed again: a second
/// report of it is refused, whoever sends it.
pub proof fn lemma_milestone_completed_once(
    c: BiddingContract,
    after: BiddingContract,
    signer: Seq<char>,
    name: Seq<char>,
    now: u64,
    hash: String,
)
    requires
        c.wf(),
        c.update_milestone_outcome(signer, name) is Ok,
        after.state_spec() == c.state_spec(),
        after.winner_spec() == c.winner_spec(),
        after.milestones_spec() == complete_at(
            c.milestones_spec(),
            index_of(c.milestones_spec(), name),
            now,
            hash,
        ),
    ensures
        forall|other: Seq<char>|
            after.update_milestone_outcome(other, name) is Err,
        lookup(after.milestones_spec(), name).unwrap().completion_date == Some(now),
        lookup(after.milestones_spec(), name).unwrap().database_hash == Some(hash),
{
    let s = c.milestones_spec();
    let i = index_of(s, name);
    let t = after.milestones_spec();
    assert(s[i].0@ == name);
    assert(t[i].0@ == name);
    assert(keys_unique(t)) by {
        assert forall|a: int, b: int|
            0 <= a < t.len() && 0 <= b < t.len() && (#[trigger] t[a]).0@ == (#[trigger] t[b]).0@
            implies a == b by {
            assert(s[a].0@ == s[b].0@);
        }
    }
    lemma_index_of(t, i);
}

} // verus!
