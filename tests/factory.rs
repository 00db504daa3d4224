use tender_bidding::factory::{minimum_deposit_for, BiddingContractFactory, MainContract, Refund, NEAR_PER_STORAGE};
use tender_bidding::auth::PendingCall;
use tender_bidding::probe::MyContract;
use tender_bidding::tender::BiddingContract;
use tender_bidding::{CallContext, ContractError};
use near_sdk::PromiseError;

const FACTORY: &str = "factory.testnet";

fn ctx(predecessor: &str, attached: u128) -> CallContext {
    CallContext {
        signer_account_id: predecessor.to_string(),
        predecessor_account_id: predecessor.to_string(),
        current_account_id: FACTORY.to_string(),
        block_timestamp: 0,
        attached_deposit: attached,
    }
}

#[test]
fn minimum_deposit_is_rate_times_code_size() {
    assert_eq!(minimum_deposit_for(0), 0);
    assert_eq!(minimum_deposit_for(3), 30_000_000_000_000_000_000);
    assert_eq!(minimum_deposit_for(1000), 1000 * NEAR_PER_STORAGE);
}

#[test]
fn deploy_plan_for_valid_name_and_enough_funds() {
    let f = MainContract::new(vec![1, 2, 3]);
    let need = minimum_deposit_for(3);
    let plan = f.create_factory_subaccount_and_deploy(&ctx(FACTORY, need), "bridge".to_string(), None).unwrap();
    assert_eq!(plan.subaccount, "bridge.factory.testnet");
    assert_eq!(plan.attached, need);
    assert_eq!(plan.code, vec![1, 2, 3]);
    assert_eq!(plan.init_args.caller, FACTORY);
    assert_eq!(plan.refund_to, FACTORY);
    assert!(plan.public_key.is_none());
}

#[test]
fn deploy_with_too_little_funds_is_refused() {
    let f = MainContract::new(vec![0; 10]);
    let need = minimum_deposit_for(10);
    let r = f.create_factory_subaccount_and_deploy(&ctx(FACTORY, need - 1), "bridge".to_string(), None);
    assert_eq!(r.err(), Some(ContractError::InsufficientDeposit(100_000_000_000_000_000_000)));
    assert!(f.view_contracts().is_empty());
}

#[test]
fn deploy_with_malformed_name_is_refused() {
    let f = MainContract::new(vec![0; 1]);
    for name in ["Bridge", "bad!", "", "-x", "a..b", "x-"] {
        let r = f.create_factory_subaccount_and_deploy(&ctx(FACTORY, u128::MAX), name.to_string(), None);
        assert_eq!(r.err(), Some(ContractError::InvalidSubaccount), "{name}");
    }
    let long = "a".repeat(60);
    let r = f.create_factory_subaccount_and_deploy(&ctx(FACTORY, u128::MAX), long, None);
    assert_eq!(r.err(), Some(ContractError::InvalidSubaccount));
    let ok = f.create_factory_subaccount_and_deploy(&ctx(FACTORY, u128::MAX), "a-b_c.d".to_string(), None);
    assert_eq!(ok.unwrap().subaccount, "a-b_c.d.factory.testnet");
}

#[test]
fn deploy_by_another_account_is_refused() {
    let f = MainContract::new(vec![0; 1]);
    let r = f.create_factory_subaccount_and_deploy(&ctx("someone.testnet", u128::MAX), "bridge".to_string(), None);
    assert_eq!(r.err(), Some(ContractError::PrivateMethod));
}

#[test]
fn failed_deploy_refunds_in_full() {
    let mut f = MainContract::new(vec![0; 1]);
    let (ok, refund) = f.create_factory_subaccount_and_deploy_callback(
        "bridge.factory.testnet".to_string(),
        "alice.testnet".to_string(),
        12_345,
        Err(PromiseError::Failed),
    );
    assert!(!ok);
    assert_eq!(refund, Some(Refund { receiver: "alice.testnet".to_string(), amount: 12_345 }));
    assert!(f.view_contracts().is_empty());
    let balance: u128 = 1_000_000;
    assert_eq!(balance - 12_345 + refund.unwrap().amount, balance);
}

#[test]
fn successful_deploy_is_recorded() {
    let mut f = MainContract::new(vec![0; 1]);
    let (ok, refund) = f.create_factory_subaccount_and_deploy_callback(
        "bridge.factory.testnet".to_string(),
        "alice.testnet".to_string(),
        12_345,
        Ok(()),
    );
    assert!(ok);
    assert_eq!(refund, None);
    assert_eq!(f.view_contracts(), vec!["bridge.factory.testnet".to_string()]);
}

#[test]
fn plain_factory_deploys_for_anyone() {
    let mut f = BiddingContractFactory::new(vec![9; 2]);
    let plan = f
        .create_factory_subaccount_and_deploy(&ctx("alice.testnet", minimum_deposit_for(2)), "park".to_string(), None)
        .unwrap();
    assert_eq!(plan.subaccount, "park.factory.testnet");
    assert_eq!(plan.refund_to, "alice.testnet");
    assert_eq!(
        f.create_factory_subaccount_and_deploy(&ctx("alice.testnet", 1), "park".to_string(), None).err(),
        Some(ContractError::InsufficientDeposit(20_000_000_000_000_000_000))
    );
    let (ok, refund) = f.create_factory_subaccount_and_deploy_callback(plan.subaccount.clone(), plan.refund_to.clone(), plan.attached, Err(PromiseError::Failed));
    assert!(!ok);
    assert_eq!(refund.unwrap().amount, plan.attached);
    assert!(f.view_contracts().is_empty());
    let (ok, _) = f.create_factory_subaccount_and_deploy_callback(plan.subaccount.clone(), plan.refund_to, plan.attached, Ok(()));
    assert!(ok);
    assert_eq!(f.view_contracts(), vec![plan.subaccount]);
}

#[test]
fn registry_lists_are_private_and_separate() {
    let mut f = MainContract::new(vec![]);
    assert_eq!(
        f.add_to_bidding_list(&ctx("mallory.testnet", 0), "mallory.testnet".to_string()),
        Err(ContractError::PrivateMethod)
    );
    assert!(!f.is_in_bidding_list(&"mallory.testnet".to_string()));
    f.add_to_bidding_list(&ctx(FACTORY, 0), "a.testnet".to_string()).unwrap();
    f.add_to_bidding_list(&ctx(FACTORY, 0), "a.testnet".to_string()).unwrap();
    f.add_to_testing_list(&ctx(FACTORY, 0), "t.testnet".to_string()).unwrap();
    assert!(f.is_in_bidding_list(&"a.testnet".to_string()));
    assert!(!f.is_in_testing_list(&"a.testnet".to_string()));
    assert!(f.is_in_testing_list(&"t.testnet".to_string()));
    assert!(!f.is_in_bidding_list(&"t.testnet".to_string()));
}

#[test]
fn unlisted_account_never_stores_a_bid() {
    let mut registry = MainContract::new(vec![]);
    registry.add_to_bidding_list(&ctx(FACTORY, 0), "a.testnet".to_string()).unwrap();
    let mut tender = BiddingContract::init(FACTORY.to_string());
    let owner = CallContext { signer_account_id: FACTORY.to_string(), ..ctx(FACTORY, 0) };
    tender.set_state_to_bid(&owner).unwrap();
    for who in ["a.testnet", "z.testnet"] {
        let c = CallContext { signer_account_id: who.to_string(), ..ctx(who, 0) };
        let q = tender.place_bid(&c, 5, "n".to_string(), "h".to_string());
        assert_eq!(q.registry, FACTORY);
        let answer = Ok(registry.is_in_bidding_list(&q.account_id));
        if let PendingCall::PlaceBid { price, bidder_name, database_hash } = q.resume {
            let r = tender.place_bid_callback(&c, answer, price, bidder_name, database_hash);
            assert_eq!(r.is_ok(), who == "a.testnet");
        }
    }
    assert!(tender.get_bid_by_bidder(&"a.testnet".to_string()).is_some());
    assert!(tender.get_bid_by_bidder(&"z.testnet".to_string()).is_none());
}

#[test]
fn get_external_call_result_follows_the_answer() {
    let mut m = MyContract::new();
    let q = m.call_external_function_one(&ctx("a.testnet", 0));
    assert_eq!(q.registry, "test.kavin.testnet");
    assert_eq!(q.account_id, "a.testnet");
    let entries = match q.resume {
        PendingCall::ExternalCallResult { entries } => entries,
        _ => panic!("wrong continuation"),
    };
    assert_eq!(entries, vec![(42, "Hello".to_string()), (99, "World".to_string())]);
    assert_eq!(m.get_external_call_result(Ok(true), entries.clone()), Ok(true));
    assert_eq!(m.get_external_call_result(Ok(false), entries.clone()), Err(ContractError::NotPermitted));
    assert_eq!(m.get_external_call_result(Err(PromiseError::Failed), entries), Err(ContractError::NotPermitted));
}
