//! The executable lifecycle engine.
//!
//! Each operation validates its guards against the state and the `now` it
//! is handed, mutates the contract and the record store, and returns either
//! the one ledger transfer it authorizes or the error naming the guard that
//! refused it — with no mutation at all on any error. Every operation is
//! proved to compute exactly the corresponding function of `transitions`,
//! and to preserve the campaign invariant: the funded sum never passes the
//! target, and equals the recorded principals until settlement begins.
//!
//! The caller supplies `now` (one read per operation) and the caller's
//! authenticated identity; performing the returned transfer against real
//! custody, and aborting the commit if that transfer fails, is the
//! runtime's half of the bargain.

use vstd::prelude::*;

use crate::contract::Contract;
use crate::contract::ContractStatus;
use crate::contract::MAX_TIME;
use crate::contract::checked_buyback;
use crate::errors::ErrorCode;
use crate::records::InvestorRecord;
use crate::records::RecordStore;
use crate::records::lemma_amount_le_sum;
use crate::records::lemma_claim_effect;
use crate::records::lemma_sum_nonneg;
use crate::records::lemma_upsert_effect;
use crate::records::lemma_zero_effect;
use crate::records::store_wf;
use crate::records::sum_amounts;
use crate::transitions::LedgerTransfer;
use crate::transitions::admin_cancel_transition;
use crate::transitions::admin_withdraw_transition;
use crate::transitions::check_maturity_transition;
use crate::transitions::claim_reward_transition;
use crate::transitions::close_contract_transition;
use crate::transitions::create_transition;
use crate::transitions::default_contract_transition;
use crate::transitions::expire_funding_transition;
use crate::transitions::invest_transition;
use crate::transitions::prolong_contract_transition;
use crate::transitions::refund_investor_transition;
use crate::transitions::settle_investor_transition;
use crate::transitions::verify_funding_transition;

verus! {

/// The accounting tie between a contract and its record store: until
/// settlement or refund begins, the recorded principals sum exactly to the
/// contract's running total; from then on they sum to at most it, each
/// payout draining its share.
pub open spec fn funding_consistent(c: Contract, s: Seq<InvestorRecord>) -> bool {
    if c.status.in_buyback() || c.status.is_terminal() {
        sum_amounts(s) <= c.amount_funded_so_far
    } else {
        sum_amounts(s) == c.amount_funded_so_far
    }
}

/// Everything that holds of a reachable campaign state: a well-formed
/// contract, a well-formed store of its records, and consistent accounting.
pub open spec fn campaign_inv(c: Contract, s: Seq<InvestorRecord>) -> bool {
    &&& c.wf()
    &&& store_wf(s, c.contract_id)
    &&& funding_consistent(c, s)
}

/// The admin opens a funding campaign. The record store starts empty
/// (`RecordStore::new`); the pair then satisfies the campaign invariant.
pub fn create_contract(
    caller: u64,
    admin: u64,
    asset_kind: u64,
    required_asset: u64,
    escrow_location: u64,
    contract_id: u64,
    total_investment_needed: u64,
    yield_percentage: i64,
    duration: i64,
    now: i64,
    farm_name: String,
    farm_address: String,
    image_reference: String,
) -> (r: Result<Contract, ErrorCode>)
    requires
        total_investment_needed > 0,
        0 <= now <= MAX_TIME,
        0 <= duration <= MAX_TIME,
    ensures
        r == create_transition(
            caller,
            admin,
            asset_kind,
            required_asset,
            escrow_location,
            contract_id,
            total_investment_needed,
            yield_percentage,
            duration,
            now,
            farm_name,
            farm_address,
            image_reference,
        ),
        r matches Ok(c) ==> c.wf() && campaign_inv(c, Seq::<InvestorRecord>::empty()),
{
    if caller != admin {
        return Err(ErrorCode::Unauthorized);
    }
    if asset_kind != required_asset {
        return Err(ErrorCode::AssetMismatch);
    }
    Ok(
        Contract {
            admin,
            asset_kind,
            escrow_location,
            contract_id,
            total_investment_needed,
            amount_funded_so_far: 0,
            yield_percentage,
            duration,
            status: ContractStatus::Created,
            upload_date: now,
            funding_deadline: now + crate::contract::FUNDING_WINDOW,
            start_time: 0,
            funded_time: 0,
            buyback_deadline: 0,
            prolonged_deadline: 0,
            farm_name,
            farm_address,
            image_reference,
        },
    )
}

/// An investor contributes `amount` at `now`. On success the returned
/// transfer moves the amount from the investor into escrow; reaching the
/// target exactly also stamps `funded_time` and moves the contract to
/// `FundedPendingVerification`.
pub fn invest_contract(
    c: &mut Contract,
    store: &mut RecordStore,
    investor: u64,
    amount: u64,
    now: i64,
) -> (r: Result<LedgerTransfer, ErrorCode>)
    requires
        campaign_inv(*old(c), old(store)@),
        0 <= now <= MAX_TIME,
    ensures
        campaign_inv(*final(c), final(store)@),
        *final(c) == invest_transition(*old(c), old(store)@, investor, amount, now).0,
        final(store)@ == invest_transition(*old(c), old(store)@, investor, amount, now).1,
        r == invest_transition(*old(c), old(store)@, investor, amount, now).2,
{
    if !(c.status == ContractStatus::Created || c.status == ContractStatus::Funding) {
        return Err(ErrorCode::InvalidStatus);
    }
    if now > c.funding_deadline {
        return Err(ErrorCode::DeadlineExceeded);
    }
    if amount > c.total_investment_needed - c.amount_funded_so_far {
        return Err(ErrorCode::AmountExceedsCapacity);
    }
    proof {
        lemma_amount_le_sum(old(store)@, investor);
        lemma_upsert_effect(old(store)@, c.contract_id, investor, amount);
    }
    c.amount_funded_so_far = c.amount_funded_so_far + amount;
    store.upsert(c.contract_id, investor, amount);
    if c.amount_funded_so_far == c.total_investment_needed {
        c.status = ContractStatus::FundedPendingVerification;
        c.funded_time = now;
    } else {
        c.status = ContractStatus::Funding;
    }
    Ok(
        LedgerTransfer {
            from: investor,
            to: c.escrow_location,
            asset_kind: c.asset_kind,
            amount,
        },
    )
}

/// The admin confirms funding by hand, stamping `funded_time` and opening
/// the withdrawal window.
pub fn verify_funding(c: &mut Contract, caller: u64, now: i64) -> (r: Result<(), ErrorCode>)
    requires
        old(c).wf(),
        0 <= now <= MAX_TIME,
    ensures
        final(c).wf(),
        *final(c) == verify_funding_transition(*old(c), caller, now).0,
        r == verify_funding_transition(*old(c), caller, now).1,
{
    if !(c.status == ContractStatus::Funding) {
        return Err(ErrorCode::InvalidStatus);
    }
    if caller != c.admin {
        return Err(ErrorCode::Unauthorized);
    }
    c.status = ContractStatus::FundedPendingVerification;
    c.funded_time = now;
    Ok(())
}

/// Anyone may end a campaign that missed its target once the funding
/// deadline has passed; contributions then come back one investor at a
/// time through `refund_investor`.
pub fn expire_funding(c: &mut Contract, now: i64) -> (r: Result<(), ErrorCode>)
    requires
        old(c).wf(),
        0 <= now <= MAX_TIME,
    ensures
        final(c).wf(),
        *final(c) == expire_funding_transition(*old(c), now).0,
        r == expire_funding_transition(*old(c), now).1,
{
    if !(c.status == ContractStatus::Created || c.status == ContractStatus::Funding) {
        return Err(ErrorCode::InvalidStatus);
    }
    if now <= c.funding_deadline {
        return Err(ErrorCode::DeadlineNotYetReached);
    }
    if c.amount_funded_so_far >= c.total_investment_needed {
        return Err(ErrorCode::InvalidStatus);
    }
    c.status = ContractStatus::Cancelled;
    Ok(())
}

/// The admin takes the pooled funds inside the withdrawal window; the
/// returned transfer moves the whole funded sum from escrow to the admin,
/// and the investment period starts at `now`.
pub fn admin_withdraw(c: &mut Contract, caller: u64, now: i64) -> (r: Result<
    LedgerTransfer,
    ErrorCode,
>)
    requires
        old(c).wf(),
        0 <= now <= MAX_TIME,
    ensures
        final(c).wf(),
        *final(c) == admin_withdraw_transition(*old(c), caller, now).0,
        r == admin_withdraw_transition(*old(c), caller, now).1,
{
    if !(c.status == ContractStatus::FundedPendingVerification) {
        return Err(ErrorCode::InvalidStatus);
    }
    if caller != c.admin {
        return Err(ErrorCode::Unauthorized);
    }
    if now - c.funded_time > crate::contract::ADMIN_WINDOW {
        return Err(ErrorCode::DeadlineExceeded);
    }
    c.status = ContractStatus::Active;
    c.start_time = now;
    Ok(
        LedgerTransfer {
            from: c.escrow_location,
            to: c.admin,
            asset_kind: c.asset_kind,
            amount: c.amount_funded_so_far,
        },
    )
}

/// The admin renounces a funded campaign inside the withdrawal window;
/// contributions then come back one investor at a time through
/// `refund_investor`.
pub fn admin_cancel(c: &mut Contract, caller: u64, now: i64) -> (r: Result<(), ErrorCode>)
    requires
        old(c).wf(),
        0 <= now <= MAX_TIME,
    ensures
        final(c).wf(),
        *final(c) == admin_cancel_transition(*old(c), caller, now).0,
        r == admin_cancel_transition(*old(c), caller, now).1,
{
    if !(c.status == ContractStatus::FundedPendingVerification) {
        return Err(ErrorCode::InvalidStatus);
    }
    if caller != c.admin {
        return Err(ErrorCode::Unauthorized);
    }
    if now - c.funded_time > crate::contract::ADMIN_WINDOW {
        return Err(ErrorCode::DeadlineExceeded);
    }
    c.status = ContractStatus::Cancelled;
    Ok(())
}

/// Anyone may note that the investment period has elapsed; the buyback
/// window opens, ending `BUYBACK_WINDOW` seconds after maturity.
pub fn check_maturity(c: &mut Contract, now: i64) -> (r: Result<(), ErrorCode>)
    requires
        old(c).wf(),
        0 <= now <= MAX_TIME,
    ensures
        final(c).wf(),
        *final(c) == check_maturity_transition(*old(c), now).0,
        r == check_maturity_transition(*old(c), now).1,
{
    if !(c.status == ContractStatus::Active) {
        return Err(ErrorCode::InvalidStatus);
    }
    let end_time = c.start_time + c.duration;
    if now < end_time {
        return Err(ErrorCode::DeadlineNotYetReached);
    }
    c.status = ContractStatus::PendingBuyback;
    c.buyback_deadline = end_time + crate::contract::BUYBACK_WINDOW;
    Ok(())
}

/// The admin buys one investor out: the returned transfer moves principal
/// plus yield from the admin to the investor, and the investor's recorded
/// principal is zeroed so the payout cannot repeat.
pub fn settle_investor(
    c: &Contract,
    store: &mut RecordStore,
    caller: u64,
    investor: u64,
    now: i64,
) -> (r: Result<LedgerTransfer, ErrorCode>)
    requires
        campaign_inv(*c, old(store)@),
    ensures
        campaign_inv(*c, final(store)@),
        final(store)@ == settle_investor_transition(*c, old(store)@, caller, investor, now).0,
        r == settle_investor_transition(*c, old(store)@, caller, investor, now).1,
{
    if !(c.status == ContractStatus::PendingBuyback || c.status == ContractStatus::Prolonged) {
        return Err(ErrorCode::InvalidStatus);
    }
    if caller != c.admin {
        return Err(ErrorCode::Unauthorized);
    }
    let deadline = if c.status == ContractStatus::PendingBuyback {
        c.buyback_deadline
    } else {
        c.prolonged_deadline
    };
    if now > deadline {
        return Err(ErrorCode::DeadlineExceeded);
    }
    let principal = store.contributed(investor);
    if principal == 0 {
        return Err(ErrorCode::AlreadyClaimed);
    }
    let required = match checked_buyback(principal, c.yield_percentage) {
        Ok(v) => v,
        Err(e) => {
            return Err(e);
        },
    };
    proof {
        lemma_amount_le_sum(old(store)@, investor);
        lemma_zero_effect(old(store)@, investor);
    }
    store.zero_amount(investor);
    Ok(LedgerTransfer { from: c.admin, to: investor, asset_kind: c.asset_kind, amount: required })
}

/// The admin closes a contract whose every investor is settled. Terminal.
pub fn close_contract(c: &mut Contract, store: &RecordStore, caller: u64) -> (r: Result<
    (),
    ErrorCode,
>)
    requires
        old(c).wf(),
    ensures
        final(c).wf(),
        *final(c) == close_contract_transition(*old(c), store@, caller).0,
        r == close_contract_transition(*old(c), store@, caller).1,
{
    if !(c.status == ContractStatus::PendingBuyback || c.status == ContractStatus::Prolonged) {
        return Err(ErrorCode::InvalidStatus);
    }
    if caller != c.admin {
        return Err(ErrorCode::Unauthorized);
    }
    if !store.all_amounts_zero() {
        return Err(ErrorCode::InvalidStatus);
    }
    c.status = ContractStatus::Settled;
    Ok(())
}

/// The admin extends the buyback window once, by `PROLONG_WINDOW` seconds
/// past the buyback deadline.
pub fn prolong_contract(c: &mut Contract, caller: u64) -> (r: Result<(), ErrorCode>)
    requires
        old(c).wf(),
    ensures
        final(c).wf(),
        *final(c) == prolong_contract_transition(*old(c), caller).0,
        r == prolong_contract_transition(*old(c), caller).1,
{
    if !(c.status == ContractStatus::PendingBuyback) {
        return Err(ErrorCode::InvalidStatus);
    }
    if caller != c.admin {
        return Err(ErrorCode::Unauthorized);
    }
    c.status = ContractStatus::Prolonged;
    c.prolonged_deadline = c.buyback_deadline + crate::contract::PROLONG_WINDOW;
    Ok(())
}

/// Anyone may mark a contract defaulted once the prolonged deadline has
/// passed unpaid. Terminal.
pub fn default_contract(c: &mut Contract, now: i64) -> (r: Result<(), ErrorCode>)
    requires
        old(c).wf(),
        0 <= now <= MAX_TIME,
    ensures
        final(c).wf(),
        *final(c) == default_contract_transition(*old(c), now).0,
        r == default_contract_transition(*old(c), now).1,
{
    if !(c.status == ContractStatus::Prolonged) {
        return Err(ErrorCode::InvalidStatus);
    }
    if now <= c.prolonged_deadline {
        return Err(ErrorCode::DeadlineNotYetReached);
    }
    c.status = ContractStatus::Defaulted;
    Ok(())
}

/// After cancellation, one investor's contribution comes back out of
/// escrow; zeroing the record keeps the refund from repeating.
pub fn refund_investor(c: &Contract, store: &mut RecordStore, investor: u64) -> (r: Result<
    LedgerTransfer,
    ErrorCode,
>)
    requires
        campaign_inv(*c, old(store)@),
    ensures
        campaign_inv(*c, final(store)@),
        final(store)@ == refund_investor_transition(*c, old(store)@, investor).0,
        r == refund_investor_transition(*c, old(store)@, investor).1,
{
    if !(c.status == ContractStatus::Cancelled) {
        return Err(ErrorCode::InvalidStatus);
    }
    let principal = store.contributed(investor);
    if principal == 0 {
        return Err(ErrorCode::AlreadyClaimed);
    }
    proof {
        lemma_amount_le_sum(old(store)@, investor);
        lemma_zero_effect(old(store)@, investor);
    }
    store.zero_amount(investor);
    Ok(
        LedgerTransfer {
            from: c.escrow_location,
            to: investor,
            asset_kind: c.asset_kind,
            amount: principal,
        },
    )
}

/// Decides the one-time reward issuance for an investor: allowed once, for
/// an actor with a record. On success the caller performs the issuance;
/// the set flag keeps it from repeating.
pub fn claim_nft(store: &mut RecordStore, investor: u64) -> (r: Result<(), ErrorCode>)
    requires
        crate::records::distinct_investors(old(store)@),
    ensures
        crate::records::distinct_investors(final(store)@),
        forall|c0: u64|
            crate::records::records_of(old(store)@, c0) ==> crate::records::records_of(
                final(store)@,
                c0,
            ),
        sum_amounts(final(store)@) == sum_amounts(old(store)@),
        final(store)@ == claim_reward_transition(old(store)@, investor).0,
        r == claim_reward_transition(old(store)@, investor).1,
{
    proof {
        lemma_sum_nonneg(old(store)@);
        lemma_claim_effect(old(store)@, investor);
    }
    if !store.contains(investor) {
        return Err(ErrorCode::Unauthorized);
    }
    if store.reward_claimed(investor) {
        return Err(ErrorCode::AlreadyClaimed);
    }
    store.set_claimed(investor);
    Ok(())
}

} // verus!
