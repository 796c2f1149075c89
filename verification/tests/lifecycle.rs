//! The full lifecycle, happy paths first.

use grasschain_contract::contract::{Contract, ContractStatus, BUYBACK_WINDOW, FUNDING_WINDOW, PROLONG_WINDOW};
use grasschain_contract::engine::{
    admin_cancel, admin_withdraw, check_maturity, close_contract, create_contract,
    default_contract, expire_funding, invest_contract, prolong_contract, settle_investor,
    verify_funding,
};
use grasschain_contract::errors::ErrorCode;
use grasschain_contract::records::RecordStore;

const DAY: i64 = 86400;
const ADMIN: u64 = 7;
const ASSET: u64 = 1;
const ESCROW: u64 = 99;
const INVESTOR_A: u64 = 42;
const INVESTOR_B: u64 = 43;

fn new_campaign(target: u64, yield_pct: i64, duration: i64, now: i64) -> (Contract, RecordStore) {
    let c = create_contract(
        ADMIN,
        ADMIN,
        ASSET,
        ASSET,
        ESCROW,
        1,
        target,
        yield_pct,
        duration,
        now,
        String::from("North Pasture"),
        String::from("1 Meadow Lane"),
        String::from("pasture.png"),
    )
    .expect("create should succeed");
    (c, RecordStore::new())
}

#[test]
fn create_initializes_fields() {
    let (c, store) = new_campaign(1000, 10, 30 * DAY, 0);
    assert_eq!(c.admin, ADMIN);
    assert_eq!(c.asset_kind, ASSET);
    assert_eq!(c.escrow_location, ESCROW);
    assert_eq!(c.contract_id, 1);
    assert_eq!(c.total_investment_needed, 1000);
    assert_eq!(c.amount_funded_so_far, 0);
    assert_eq!(c.yield_percentage, 10);
    assert_eq!(c.duration, 30 * DAY);
    assert_eq!(c.status, ContractStatus::Created);
    assert_eq!(c.upload_date, 0);
    assert_eq!(c.funding_deadline, FUNDING_WINDOW);
    assert_eq!(c.start_time, 0);
    assert_eq!(c.funded_time, 0);
    assert_eq!(c.farm_name, "North Pasture");
    assert_eq!(c.farm_address, "1 Meadow Lane");
    assert_eq!(c.image_reference, "pasture.png");
    assert_eq!(store.len(), 0);
}

#[test]
fn create_rejects_wrong_caller() {
    let r = create_contract(
        8,
        ADMIN,
        ASSET,
        ASSET,
        ESCROW,
        1,
        1000,
        10,
        30 * DAY,
        0,
        String::new(),
        String::new(),
        String::new(),
    );
    assert_eq!(r, Err(ErrorCode::Unauthorized));
}

#[test]
fn create_rejects_wrong_asset() {
    let r = create_contract(
        ADMIN,
        ADMIN,
        2,
        ASSET,
        ESCROW,
        1,
        1000,
        10,
        30 * DAY,
        0,
        String::new(),
        String::new(),
        String::new(),
    );
    assert_eq!(r, Err(ErrorCode::AssetMismatch));
}

#[test]
fn end_to_end_settlement() {
    let (mut c, mut store) = new_campaign(1000, 5, 30 * DAY, 0);

    let t = invest_contract(&mut c, &mut store, INVESTOR_A, 1000, 10).expect("contribution");
    assert_eq!(t.from, INVESTOR_A);
    assert_eq!(t.to, ESCROW);
    assert_eq!(t.asset_kind, ASSET);
    assert_eq!(t.amount, 1000);
    assert_eq!(c.status, ContractStatus::FundedPendingVerification);
    assert_eq!(c.funded_time, 10);
    assert_eq!(c.amount_funded_so_far, 1000);

    let t = admin_withdraw(&mut c, ADMIN, 20).expect("withdrawal");
    assert_eq!(t.from, ESCROW);
    assert_eq!(t.to, ADMIN);
    assert_eq!(t.amount, 1000);
    assert_eq!(c.status, ContractStatus::Active);
    assert_eq!(c.start_time, 20);

    let maturity = 20 + 30 * DAY;
    check_maturity(&mut c, maturity).expect("maturity");
    assert_eq!(c.status, ContractStatus::PendingBuyback);
    assert_eq!(c.buyback_deadline, maturity + BUYBACK_WINDOW);

    let t = settle_investor(&c, &mut store, ADMIN, INVESTOR_A, maturity + DAY).expect("settlement");
    assert_eq!(t.from, ADMIN);
    assert_eq!(t.to, INVESTOR_A);
    assert_eq!(t.amount, 1050);
    assert_eq!(store.contributed(INVESTOR_A), 0);

    close_contract(&mut c, &store, ADMIN).expect("close");
    assert_eq!(c.status, ContractStatus::Settled);
}

#[test]
fn partial_funding_accumulates() {
    let (mut c, mut store) = new_campaign(1000, 10, 30 * DAY, 0);
    invest_contract(&mut c, &mut store, INVESTOR_A, 300, 5).expect("first");
    assert_eq!(c.status, ContractStatus::Funding);
    invest_contract(&mut c, &mut store, INVESTOR_B, 400, 6).expect("second");
    assert_eq!(c.status, ContractStatus::Funding);
    invest_contract(&mut c, &mut store, INVESTOR_A, 300, 7).expect("third");
    assert_eq!(c.status, ContractStatus::FundedPendingVerification);
    assert_eq!(c.amount_funded_so_far, 1000);
    assert_eq!(store.len(), 2);
    assert_eq!(store.contributed(INVESTOR_A), 600);
    assert_eq!(store.contributed(INVESTOR_B), 400);
    assert_eq!(store.amounts_sum(), c.amount_funded_so_far);
}

#[test]
fn verify_funding_stamps_time() {
    let (mut c, mut store) = new_campaign(1000, 10, 30 * DAY, 0);
    invest_contract(&mut c, &mut store, INVESTOR_A, 400, 5).expect("partial");
    verify_funding(&mut c, ADMIN, 12).expect("manual verification");
    assert_eq!(c.status, ContractStatus::FundedPendingVerification);
    assert_eq!(c.funded_time, 12);
}

#[test]
fn verify_funding_rejects_wrong_caller() {
    let (mut c, mut store) = new_campaign(1000, 10, 30 * DAY, 0);
    invest_contract(&mut c, &mut store, INVESTOR_A, 400, 5).expect("partial");
    assert_eq!(verify_funding(&mut c, 8, 12), Err(ErrorCode::Unauthorized));
    assert_eq!(c.status, ContractStatus::Funding);
}

#[test]
fn expire_then_refund_everyone() {
    let (mut c, mut store) = new_campaign(1000, 10, 30 * DAY, 0);
    invest_contract(&mut c, &mut store, INVESTOR_A, 300, 5).expect("first");
    invest_contract(&mut c, &mut store, INVESTOR_B, 200, 6).expect("second");

    expire_funding(&mut c, 31 * DAY).expect("expiry past deadline");
    assert_eq!(c.status, ContractStatus::Cancelled);
    assert_eq!(c.amount_funded_so_far, 500);

    let t = grasschain_contract::engine::refund_investor(&c, &mut store, INVESTOR_A)
        .expect("first refund");
    assert_eq!(t.from, ESCROW);
    assert_eq!(t.to, INVESTOR_A);
    assert_eq!(t.amount, 300);
    let t = grasschain_contract::engine::refund_investor(&c, &mut store, INVESTOR_B)
        .expect("second refund");
    assert_eq!(t.amount, 200);
    assert!(store.all_amounts_zero());
}

#[test]
fn admin_cancel_then_refund() {
    let (mut c, mut store) = new_campaign(1000, 10, 30 * DAY, 0);
    invest_contract(&mut c, &mut store, INVESTOR_A, 1000, 5).expect("full");
    admin_cancel(&mut c, ADMIN, 10 * DAY).expect("cancel inside window");
    assert_eq!(c.status, ContractStatus::Cancelled);
    let t = grasschain_contract::engine::refund_investor(&c, &mut store, INVESTOR_A)
        .expect("refund");
    assert_eq!(t.amount, 1000);
}

#[test]
fn prolong_then_settle() {
    let (mut c, mut store) = new_campaign(1000, 10, 30 * DAY, 0);
    invest_contract(&mut c, &mut store, INVESTOR_A, 1000, 5).expect("full");
    admin_withdraw(&mut c, ADMIN, 10).expect("withdraw");
    let maturity = 10 + 30 * DAY;
    check_maturity(&mut c, maturity).expect("maturity");
    prolong_contract(&mut c, ADMIN).expect("prolongation");
    assert_eq!(c.status, ContractStatus::Prolonged);
    assert_eq!(c.prolonged_deadline, c.buyback_deadline + PROLONG_WINDOW);

    let late = c.buyback_deadline + PROLONG_WINDOW - 1;
    let t = settle_investor(&c, &mut store, ADMIN, INVESTOR_A, late).expect("late settlement");
    assert_eq!(t.amount, 1100);
    close_contract(&mut c, &store, ADMIN).expect("close");
    assert_eq!(c.status, ContractStatus::Settled);
}

#[test]
fn prolong_then_default() {
    let (mut c, mut store) = new_campaign(1000, 10, 30 * DAY, 0);
    invest_contract(&mut c, &mut store, INVESTOR_A, 1000, 5).expect("full");
    admin_withdraw(&mut c, ADMIN, 10).expect("withdraw");
    let maturity = 10 + 30 * DAY;
    check_maturity(&mut c, maturity).expect("maturity");
    prolong_contract(&mut c, ADMIN).expect("prolongation");
    let prolonged_deadline = c.prolonged_deadline;
    assert_eq!(
        default_contract(&mut c, prolonged_deadline),
        Err(ErrorCode::DeadlineNotYetReached)
    );
    default_contract(&mut c, prolonged_deadline + 1).expect("default past deadline");
    assert_eq!(c.status, ContractStatus::Defaulted);
}
