//! The record store: accumulation, the audit trail, settlement and refund
//! idempotence, and the one-time reward flag.

use grasschain_contract::contract::Contract;
use grasschain_contract::engine::{
    admin_withdraw, check_maturity, claim_nft, create_contract, expire_funding, invest_contract,
    refund_investor, settle_investor,
};
use grasschain_contract::errors::ErrorCode;
use grasschain_contract::records::RecordStore;

const DAY: i64 = 86400;
const ADMIN: u64 = 7;
const INVESTOR_A: u64 = 42;
const INVESTOR_B: u64 = 43;

fn campaign(target: u64) -> (Contract, RecordStore) {
    let c = create_contract(
        ADMIN,
        ADMIN,
        1,
        1,
        99,
        1,
        target,
        10,
        30 * DAY,
        0,
        String::new(),
        String::new(),
        String::new(),
    )
    .expect("create");
    (c, RecordStore::new())
}

#[test]
fn records_keyed_per_investor() {
    let (mut c, mut store) = campaign(1000);
    invest_contract(&mut c, &mut store, INVESTOR_A, 100, 1).expect("a");
    invest_contract(&mut c, &mut store, INVESTOR_B, 200, 2).expect("b");
    invest_contract(&mut c, &mut store, INVESTOR_A, 50, 3).expect("a again");
    assert_eq!(store.len(), 2);
    let first = store.get(0);
    assert_eq!(first.contract, 1);
    assert_eq!(first.investor, INVESTOR_A);
    assert_eq!(first.amount, 150);
    assert!(!first.claimed_reward);
    let second = store.get(1);
    assert_eq!(second.investor, INVESTOR_B);
    assert_eq!(second.amount, 200);
    assert_eq!(store.contributed(INVESTOR_A), 150);
    assert_eq!(store.contributed(INVESTOR_B), 200);
    assert_eq!(store.contributed(77), 0);
    assert!(store.contains(INVESTOR_A));
    assert!(!store.contains(77));
}

#[test]
fn sum_tracks_funding_until_settlement() {
    let (mut c, mut store) = campaign(1000);
    invest_contract(&mut c, &mut store, INVESTOR_A, 600, 1).expect("a");
    invest_contract(&mut c, &mut store, INVESTOR_B, 400, 2).expect("b");
    assert_eq!(store.amounts_sum(), c.amount_funded_so_far);
    admin_withdraw(&mut c, ADMIN, 10).expect("withdraw");
    check_maturity(&mut c, 10 + 30 * DAY).expect("maturity");
    settle_investor(&c, &mut store, ADMIN, INVESTOR_A, c.buyback_deadline).expect("settle a");
    // The audit trail keeps the record, drained.
    assert_eq!(store.len(), 2);
    assert_eq!(store.amounts_sum(), 400);
    assert_eq!(c.amount_funded_so_far, 1000);
    assert!(!store.all_amounts_zero());
    settle_investor(&c, &mut store, ADMIN, INVESTOR_B, c.buyback_deadline).expect("settle b");
    assert!(store.all_amounts_zero());
}

#[test]
fn settling_twice_is_rejected() {
    let (mut c, mut store) = campaign(1000);
    invest_contract(&mut c, &mut store, INVESTOR_A, 1000, 1).expect("full");
    admin_withdraw(&mut c, ADMIN, 10).expect("withdraw");
    check_maturity(&mut c, 10 + 30 * DAY).expect("maturity");
    let t = settle_investor(&c, &mut store, ADMIN, INVESTOR_A, c.buyback_deadline)
        .expect("first settlement");
    assert_eq!(t.amount, 1100);
    let r = settle_investor(&c, &mut store, ADMIN, INVESTOR_A, c.buyback_deadline);
    assert_eq!(r, Err(ErrorCode::AlreadyClaimed));
    assert_eq!(store.contributed(INVESTOR_A), 0);
}

#[test]
fn settling_a_stranger_is_rejected() {
    let (mut c, mut store) = campaign(1000);
    invest_contract(&mut c, &mut store, INVESTOR_A, 1000, 1).expect("full");
    admin_withdraw(&mut c, ADMIN, 10).expect("withdraw");
    check_maturity(&mut c, 10 + 30 * DAY).expect("maturity");
    let r = settle_investor(&c, &mut store, ADMIN, INVESTOR_B, c.buyback_deadline);
    assert_eq!(r, Err(ErrorCode::AlreadyClaimed));
}

#[test]
fn refunding_twice_is_rejected() {
    let (mut c, mut store) = campaign(1000);
    invest_contract(&mut c, &mut store, INVESTOR_A, 300, 1).expect("partial");
    expire_funding(&mut c, 31 * DAY).expect("expire");
    let t = refund_investor(&c, &mut store, INVESTOR_A).expect("refund");
    assert_eq!(t.amount, 300);
    assert_eq!(refund_investor(&c, &mut store, INVESTOR_A), Err(ErrorCode::AlreadyClaimed));
}

#[test]
fn zero_contribution_creates_empty_record() {
    let (mut c, mut store) = campaign(1000);
    let t = invest_contract(&mut c, &mut store, INVESTOR_A, 0, 1).expect("zero contribution");
    assert_eq!(t.amount, 0);
    assert_eq!(c.amount_funded_so_far, 0);
    assert_eq!(store.len(), 1);
    assert_eq!(store.contributed(INVESTOR_A), 0);

    // The empty record owes and is owed nothing: the campaign can still be
    // verified, withdrawn (moving nothing) and closed.
    grasschain_contract::engine::verify_funding(&mut c, ADMIN, 2).expect("verify");
    let t = admin_withdraw(&mut c, ADMIN, 3).expect("withdraw");
    assert_eq!(t.amount, 0);
    check_maturity(&mut c, 3 + 30 * DAY).expect("maturity");
    let r = settle_investor(&c, &mut store, ADMIN, INVESTOR_A, c.buyback_deadline);
    assert_eq!(r, Err(ErrorCode::AlreadyClaimed));
    grasschain_contract::engine::close_contract(&mut c, &store, ADMIN).expect("close");
}

#[test]
fn reward_issued_once() {
    let (mut c, mut store) = campaign(1000);
    invest_contract(&mut c, &mut store, INVESTOR_A, 300, 1).expect("partial");
    assert_eq!(claim_nft(&mut store, INVESTOR_B), Err(ErrorCode::Unauthorized));
    claim_nft(&mut store, INVESTOR_A).expect("first claim");
    assert!(store.reward_claimed(INVESTOR_A));
    assert_eq!(claim_nft(&mut store, INVESTOR_A), Err(ErrorCode::AlreadyClaimed));
    // The flag survives settlement bookkeeping untouched.
    assert_eq!(store.contributed(INVESTOR_A), 300);
}
