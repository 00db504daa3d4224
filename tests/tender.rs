use tender_bidding::tender::{BiddingContract, Bid, ContractState, Milestone};
use tender_bidding::auth::{PendingCall, RegistryList};
use tender_bidding::{CallContext, ContractError};
use near_sdk::PromiseError;

fn ctx(signer: &str, now: u64) -> CallContext {
    CallContext {
        signer_account_id: signer.to_string(),
        predecessor_account_id: signer.to_string(),
        current_account_id: "tender.factory.testnet".to_string(),
        block_timestamp: now,
        attached_deposit: 0,
    }
}

fn milestone(description: &str, due: u64) -> Milestone {
    Milestone {
        description: description.to_string(),
        due_date: due,
        completion_date: None,
        database_hash: None,
    }
}

fn bid(c: &mut BiddingContract, who: &str, price: u64, hash: &str) -> Result<(), ContractError> {
    c.place_bid_callback(&ctx(who, 1), Ok(true), price, format!("{who} ltd"), hash.to_string())
}

fn tender_in_bidding() -> BiddingContract {
    let mut c = BiddingContract::init("owner.testnet".to_string());
    c.set_state_to_bid(&ctx("owner.testnet", 0)).unwrap();
    c
}

fn tender_in_construction(winner: &str) -> BiddingContract {
    let mut c = tender_in_bidding();
    bid(&mut c, winner, 100, "h1").unwrap();
    c.choose_winner(
        &ctx("owner.testnet", 2),
        winner.to_string(),
        vec![("m1".to_string(), milestone("foundations", 10))],
        vec![],
    )
    .unwrap();
    c.set_state_to_construction(&ctx("owner.testnet", 3)).unwrap();
    c
}

#[test]
fn init_starts_in_survey_with_given_owner() {
    let c = BiddingContract::init("owner.testnet".to_string());
    assert_eq!(c.view_state(), ContractState::Survey);
    assert_eq!(c.view_owner(), "owner.testnet");
    assert!(c.view_bids().is_empty());
    assert!(c.view_comments().is_empty());
    assert!(c.view_milestones().is_empty());
    assert_eq!(c.get_winner(), None);
}

#[test]
fn survey_comments_then_rebid_keeps_latest() {
    let mut c = BiddingContract::init("owner.testnet".to_string());
    c.place_comments(&ctx("alice.testnet", 1), true, "good idea".to_string()).unwrap();
    c.place_comments(&ctx("bob.testnet", 1), false, "too costly".to_string()).unwrap();
    c.set_state_to_bid(&ctx("owner.testnet", 2)).unwrap();
    bid(&mut c, "a.testnet", 100, "h1").unwrap();
    bid(&mut c, "a.testnet", 80, "h2").unwrap();
    let got = c.get_bid_by_bidder(&"a.testnet".to_string()).unwrap();
    assert_eq!(got.price, 80);
    assert_eq!(got.database_hash, "h2");
    assert_eq!(c.view_bids().len(), 1);
    let comments = c.view_comments();
    assert_eq!(comments.len(), 2);
    assert_eq!(comments[0].commenter, "alice.testnet");
    assert!(comments[0].thumbs_up);
    assert_eq!(comments[1].commenter, "bob.testnet");
    assert_eq!(comments[1].message, "too costly");
}

#[test]
fn rebids_of_several_accounts_keep_each_latest() {
    let mut c = tender_in_bidding();
    bid(&mut c, "a.testnet", 100, "h1").unwrap();
    bid(&mut c, "b.testnet", 90, "h3").unwrap();
    bid(&mut c, "a.testnet", 70, "h4").unwrap();
    bid(&mut c, "a.testnet", 75, "h5").unwrap();
    let bids = c.view_bids();
    assert_eq!(bids.len(), 2);
    assert_eq!(bids[0].0, "a.testnet");
    assert_eq!(bids[0].1.price, 75);
    assert_eq!(bids[1].0, "b.testnet");
    assert_eq!(bids[1].1.price, 90);
    assert_eq!(c.get_bid_by_bidder(&"c.testnet".to_string()), None);
}

#[test]
fn choose_winner_records_winner_and_pending_milestone() {
    let mut c = tender_in_bidding();
    bid(&mut c, "b.testnet", 120, "hb").unwrap();
    c.choose_winner(
        &ctx("owner.testnet", 5),
        "b.testnet".to_string(),
        vec![("m1".to_string(), milestone("roof", 10))],
        vec![],
    )
    .unwrap();
    assert_eq!(c.view_state(), ContractState::Selected);
    assert_eq!(
        c.get_winner(),
        Some(Bid { bidder_name: "b.testnet ltd".to_string(), price: 120, database_hash: "hb".to_string() })
    );
    let ms = c.view_milestones();
    assert_eq!(ms.len(), 1);
    assert_eq!(ms[0].0, "m1");
    assert_eq!(ms[0].1.due_date, 10);
    assert_eq!(ms[0].1.completion_date, None);
    assert_eq!(ms[0].1.database_hash, None);
}

#[test]
fn choose_winner_later_entries_overwrite_earlier() {
    let mut c = tender_in_bidding();
    c.choose_winner(
        &ctx("owner.testnet", 5),
        "b.testnet".to_string(),
        vec![
            ("m1".to_string(), milestone("first", 10)),
            ("m2".to_string(), milestone("second", 20)),
            ("m1".to_string(), milestone("again", 30)),
        ],
        vec![],
    )
    .unwrap();
    let ms = c.view_milestones();
    assert_eq!(ms.len(), 2);
    assert_eq!(ms[0].0, "m1");
    assert_eq!(ms[0].1.description, "again");
    assert_eq!(ms[0].1.due_date, 30);
    assert_eq!(ms[1].0, "m2");
}

#[test]
fn choose_winner_twice_fails_and_keeps_first() {
    let mut c = tender_in_bidding();
    c.choose_winner(&ctx("owner.testnet", 5), "b.testnet".to_string(), vec![("m1".to_string(), milestone("x", 10))], vec![]).unwrap();
    let second = c.choose_winner(&ctx("owner.testnet", 6), "c.testnet".to_string(), vec![("m9".to_string(), milestone("y", 99))], vec![]);
    assert_eq!(second, Err(ContractError::WrongState(ContractState::Bidding)));
    c.set_state_to_construction(&ctx("owner.testnet", 7)).unwrap();
    let third = c.choose_winner(&ctx("owner.testnet", 8), "c.testnet".to_string(), vec![], vec![]);
    assert_eq!(third, Err(ContractError::WrongState(ContractState::Bidding)));
    assert_eq!(c.view_milestones().len(), 1);
    assert_eq!(c.view_milestones()[0].0, "m1");
    assert!(c.update_milestone(&ctx("c.testnet", 9), "m1".to_string(), "h".to_string()).is_err());
}

#[test]
fn choose_winner_requires_owner() {
    let mut c = tender_in_bidding();
    let r = c.choose_winner(&ctx("mallory.testnet", 5), "mallory.testnet".to_string(), vec![], vec![]);
    assert_eq!(r, Err(ContractError::NotOwner));
    assert_eq!(c.view_state(), ContractState::Bidding);
    assert_eq!(c.get_winner(), None);
}

#[test]
fn update_milestone_completes_once() {
    let mut c = tender_in_construction("w.testnet");
    c.update_milestone(&ctx("w.testnet", 42), "m1".to_string(), "proof1".to_string()).unwrap();
    let ms = c.view_milestones();
    assert_eq!(ms[0].1.completion_date, Some(42));
    assert_eq!(ms[0].1.database_hash, Some("proof1".to_string()));
    assert_eq!(ms[0].1.description, "foundations");
    let again = c.update_milestone(&ctx("w.testnet", 50), "m1".to_string(), "proof2".to_string());
    assert_eq!(again, Err(ContractError::MilestoneAlreadyAchieved));
    let ms = c.view_milestones();
    assert_eq!(ms[0].1.completion_date, Some(42));
    assert_eq!(ms[0].1.database_hash, Some("proof1".to_string()));
}

#[test]
fn update_milestone_errors() {
    let mut c = tender_in_construction("w.testnet");
    assert_eq!(
        c.update_milestone(&ctx("x.testnet", 1), "m1".to_string(), "h".to_string()),
        Err(ContractError::NotWinner)
    );
    assert_eq!(
        c.update_milestone(&ctx("w.testnet", 1), "nope".to_string(), "h".to_string()),
        Err(ContractError::MilestoneNotFound)
    );
    let mut s = tender_in_bidding();
    assert_eq!(
        s.update_milestone(&ctx("w.testnet", 1), "m1".to_string(), "h".to_string()),
        Err(ContractError::WrongState(ContractState::Construction))
    );
}

#[test]
fn phase_transitions_follow_the_order() {
    let mut c = BiddingContract::init("owner.testnet".to_string());
    let o = ctx("owner.testnet", 0);
    assert_eq!(c.set_state_to_construction(&o), Err(ContractError::WrongState(ContractState::Selected)));
    assert_eq!(c.set_state_to_testing(&o), Err(ContractError::WrongState(ContractState::PreCompleted)));
    assert_eq!(c.set_state_to_precompleted(&o), Err(ContractError::WrongState(ContractState::Construction)));
    assert_eq!(c.view_state(), ContractState::Survey);
    c.set_state_to_bid(&o).unwrap();
    assert_eq!(c.set_state_to_bid(&o), Err(ContractError::WrongState(ContractState::Survey)));
    assert_eq!(c.set_state_to_construction(&o), Err(ContractError::WrongState(ContractState::Selected)));
    assert_eq!(c.view_state(), ContractState::Bidding);
    c.choose_winner(&o, "w.testnet".to_string(), vec![], vec![]).unwrap();
    c.set_state_to_construction(&o).unwrap();
    assert_eq!(c.set_state_to_precompleted(&o), Err(ContractError::NotWinner));
    c.set_state_to_precompleted(&ctx("w.testnet", 1)).unwrap();
    assert_eq!(c.view_state(), ContractState::PreCompleted);
    assert_eq!(c.set_state_to_testing(&ctx("w.testnet", 1)), Err(ContractError::NotOwner));
    c.set_state_to_testing(&o).unwrap();
    assert_eq!(c.view_state(), ContractState::Testing);
}

#[test]
fn disable_is_owner_only_and_terminal() {
    let mut c = tender_in_bidding();
    assert_eq!(c.set_state_to_disabled(&ctx("x.testnet", 0)), Err(ContractError::NotOwner));
    assert_eq!(c.view_state(), ContractState::Bidding);
    c.set_state_to_disabled(&ctx("owner.testnet", 0)).unwrap();
    assert_eq!(c.view_state(), ContractState::Disabled);
    assert_eq!(bid(&mut c, "a.testnet", 1, "h"), Err(ContractError::WrongState(ContractState::Bidding)));
    assert_eq!(c.set_state_to_bid(&ctx("owner.testnet", 0)), Err(ContractError::WrongState(ContractState::Survey)));
}

#[test]
fn comments_only_during_survey() {
    let mut c = tender_in_bidding();
    assert_eq!(
        c.place_comments(&ctx("a.testnet", 0), true, "late".to_string()),
        Err(ContractError::WrongState(ContractState::Survey))
    );
    assert!(c.view_comments().is_empty());
}

#[test]
fn place_bid_asks_the_owner_registry() {
    let c = tender_in_bidding();
    let q = c.place_bid(&ctx("a.testnet", 0), 55, "A".to_string(), "ha".to_string());
    assert_eq!(q.registry, "owner.testnet");
    assert_eq!(q.account_id, "a.testnet");
    assert_eq!(q.list, RegistryList::Bidding);
    match q.resume {
        PendingCall::PlaceBid { price, bidder_name, database_hash } => {
            assert_eq!(price, 55);
            assert_eq!(bidder_name, "A");
            assert_eq!(database_hash, "ha");
        }
        _ => panic!("wrong continuation"),
    }
    assert!(c.view_bids().is_empty());
}

#[test]
fn bid_refused_when_registry_denies_or_fails() {
    let mut c = tender_in_bidding();
    let denied = c.place_bid_callback(&ctx("a.testnet", 0), Ok(false), 10, "A".to_string(), "h".to_string());
    assert_eq!(denied, Err(ContractError::NotPermitted));
    let failed = c.place_bid_callback(&ctx("a.testnet", 0), Err(PromiseError::Failed), 10, "A".to_string(), "h".to_string());
    assert_eq!(failed, Err(ContractError::NotPermitted));
    assert!(c.view_bids().is_empty());
    let mut s = BiddingContract::init("owner.testnet".to_string());
    let in_survey = s.place_bid_callback(&ctx("a.testnet", 0), Ok(false), 10, "A".to_string(), "h".to_string());
    assert_eq!(in_survey, Err(ContractError::NotPermitted));
    assert!(s.view_bids().is_empty());
}

#[test]
fn bid_outside_bidding_phase_refused() {
    let mut c = BiddingContract::init("owner.testnet".to_string());
    assert_eq!(bid(&mut c, "a.testnet", 1, "h"), Err(ContractError::WrongState(ContractState::Bidding)));
    assert!(c.view_bids().is_empty());
}
