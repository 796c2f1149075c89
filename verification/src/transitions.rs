//! The state machine itself, as mathematics.
//!
//! Each function here maps a pre-state and an operation's inputs to the
//! post-state and the outcome: either the one ledger transfer the operation
//! authorizes, or the error that names the guard which refused it. The
//! executable engine proves that it computes exactly these functions, so
//! every lifecycle law is a statement about this module.
//!
//! Guards are ordered: lifecycle state first, then authorization, then
//! time windows, then amounts. An operation applied in a state that does
//! not permit it always answers `InvalidStatus` and changes nothing.

use vstd::prelude::*;

use crate::contract::ADMIN_WINDOW;
use crate::contract::BUYBACK_WINDOW;
use crate::contract::FUNDING_WINDOW;
use crate::contract::PROLONG_WINDOW;
use crate::contract::Contract;
use crate::contract::ContractStatus;
use crate::contract::required_buyback;
use crate::errors::ErrorCode;
use crate::records::InvestorRecord;
use crate::records::all_settled;
use crate::records::amount_of;
use crate::records::claimed_of;
use crate::records::has_investor;
use crate::records::index_of_investor;
use crate::records::set_claimed_rec;
use crate::records::upsert_rec;
use crate::records::zero_amount_rec;

verus! {

/// The one fund movement a transition authorizes, handed to the ledger
/// collaborator as a plain instruction.
#[derive(Clone, Copy, Debug, PartialEq, Eq, Structural)]
pub struct LedgerTransfer {
    /// Identity the funds leave.
    pub from: u64,
    /// Identity the funds reach.
    pub to: u64,
    /// The fungible asset moved.
    pub asset_kind: u64,
    /// How much moves.
    pub amount: u64,
}

/// A new campaign, when the caller is the designated admin and offers the
/// required asset: everything fixed, nothing funded, the funding window
/// open for `FUNDING_WINDOW` seconds from `now`.
pub open spec fn create_transition(
    caller: u64,
    admin: u64,
    asset_kind: u64,
    required_asset: u64,
    escrow_location: u64,
    contract_id: u64,
    total_investment_needed: u64,
    yield_percentage: i64,
    duration: i64,
    now: i64,
    farm_name: String,
    farm_address: String,
    image_reference: String,
) -> Result<Contract, ErrorCode> {
    if caller != admin {
        Err(ErrorCode::Unauthorized)
    } else if asset_kind != required_asset {
        Err(ErrorCode::AssetMismatch)
    } else {
        Ok(
            Contract {
                admin,
                asset_kind,
                escrow_location,
                contract_id,
                total_investment_needed,
                amount_funded_so_far: 0,
                yield_percentage,
                duration,
                status: ContractStatus::Created,
                upload_date: now,
                funding_deadline: (now + FUNDING_WINDOW) as i64,
                start_time: 0,
                funded_time: 0,
                buyback_deadline: 0,
                prolonged_deadline: 0,
                farm_name,
                farm_address,
                image_reference,
            },
        )
    }
}

/// A contribution of `amount` by `investor` at `now`: accepted while the
/// funding window is open and the target is not passed; reaching the target
/// exactly moves the contract to `FundedPendingVerification` on the spot.
pub open spec fn invest_transition(
    c: Contract,
    s: Seq<InvestorRecord>,
    investor: u64,
    amount: u64,
    now: i64,
) -> (Contract, Seq<InvestorRecord>, Result<LedgerTransfer, ErrorCode>) {
    if !c.status.accepts_contributions() {
        (c, s, Err(ErrorCode::InvalidStatus))
    } else if now > c.funding_deadline {
        (c, s, Err(ErrorCode::DeadlineExceeded))
    } else if amount > c.total_investment_needed - c.amount_funded_so_far {
        (c, s, Err(ErrorCode::AmountExceedsCapacity))
    } else {
        let funded = (c.amount_funded_so_far + amount) as u64;
        let full = funded == c.total_investment_needed;
        let c2 = Contract {
            amount_funded_so_far: funded,
            status: if full {
                ContractStatus::FundedPendingVerification
            } else {
                ContractStatus::Funding
            },
            funded_time: if full {
                now
            } else {
                c.funded_time
            },
            ..c
        };
        (
            c2,
            upsert_rec(s, c.contract_id, investor, amount),
            Ok(
                LedgerTransfer {
                    from: investor,
                    to: c.escrow_location,
                    asset_kind: c.asset_kind,
                    amount,
                },
            ),
        )
    }
}

/// The admin's manual confirmation that funding is complete: stamps
/// `funded_time` and opens the withdrawal window.
pub open spec fn verify_funding_transition(c: Contract, caller: u64, now: i64) -> (
    Contract,
    Result<(), ErrorCode>,
) {
    if !(c.status is Funding) {
        (c, Err(ErrorCode::InvalidStatus))
    } else if caller != c.admin {
        (c, Err(ErrorCode::Unauthorized))
    } else {
        (
            Contract {
                status: ContractStatus::FundedPendingVerification,
                funded_time: now,
                ..c
            },
            Ok(()),
        )
    }
}

/// Ends a campaign that missed its target by the funding deadline; the
/// contributions then come back through `refund_investor`, one by one.
pub open spec fn expire_funding_transition(c: Contract, now: i64) -> (
    Contract,
    Result<(), ErrorCode>,
) {
    if !c.status.accepts_contributions() {
        (c, Err(ErrorCode::InvalidStatus))
    } else if now <= c.funding_deadline {
        (c, Err(ErrorCode::DeadlineNotYetReached))
    } else if c.amount_funded_so_far >= c.total_investment_needed {
        (c, Err(ErrorCode::InvalidStatus))
    } else {
        (Contract { status: ContractStatus::Cancelled, ..c }, Ok(()))
    }
}

/// The admin takes the pooled funds and the investment period begins.
pub open spec fn admin_withdraw_transition(c: Contract, caller: u64, now: i64) -> (
    Contract,
    Result<LedgerTransfer, ErrorCode>,
) {
    if !(c.status is FundedPendingVerification) {
        (c, Err(ErrorCode::InvalidStatus))
    } else if caller != c.admin {
        (c, Err(ErrorCode::Unauthorized))
    } else if now - c.funded_time > ADMIN_WINDOW {
        (c, Err(ErrorCode::DeadlineExceeded))
    } else {
        (
            Contract { status: ContractStatus::Active, start_time: now, ..c },
            Ok(
                LedgerTransfer {
                    from: c.escrow_location,
                    to: c.admin,
                    asset_kind: c.asset_kind,
                    amount: c.amount_funded_so_far,
                },
            ),
        )
    }
}

/// The admin renounces a funded campaign inside the withdrawal window; the
/// contributions then come back through `refund_investor`, one by one.
pub open spec fn admin_cancel_transition(c: Contract, caller: u64, now: i64) -> (
    Contract,
    Result<(), ErrorCode>,
) {
    if !(c.status is FundedPendingVerification) {
        (c, Err(ErrorCode::InvalidStatus))
    } else if caller != c.admin {
        (c, Err(ErrorCode::Unauthorized))
    } else if now - c.funded_time > ADMIN_WINDOW {
        (c, Err(ErrorCode::DeadlineExceeded))
    } else {
        (Contract { status: ContractStatus::Cancelled, ..c }, Ok(()))
    }
}

/// Notes that the investment period has elapsed and opens the buyback
/// window.
pub open spec fn check_maturity_transition(c: Contract, now: i64) -> (
    Contract,
    Result<(), ErrorCode>,
) {
    if !(c.status is Active) {
        (c, Err(ErrorCode::InvalidStatus))
    } else if now < c.start_time + c.duration {
        (c, Err(ErrorCode::DeadlineNotYetReached))
    } else {
        (
            Contract {
                status: ContractStatus::PendingBuyback,
                buyback_deadline: (c.start_time + c.duration + BUYBACK_WINDOW) as i64,
                ..c
            },
            Ok(()),
        )
    }
}

/// The deadline that bounds settlement in the contract's current state.
pub open spec fn settlement_deadline(c: Contract) -> int {
    if c.status is PendingBuyback {
        c.buyback_deadline as int
    } else {
        c.prolonged_deadline as int
    }
}

/// The admin buys one investor out: principal plus yield moves from the
/// admin to the investor and the record's principal is zeroed, so a second
/// settlement of the same investor has nothing left to pay.
pub open spec fn settle_investor_transition(
    c: Contract,
    s: Seq<InvestorRecord>,
    caller: u64,
    investor: u64,
    now: i64,
) -> (Seq<InvestorRecord>, Result<LedgerTransfer, ErrorCode>) {
    if !c.status.in_buyback() {
        (s, Err(ErrorCode::InvalidStatus))
    } else if caller != c.admin {
        (s, Err(ErrorCode::Unauthorized))
    } else if now > settlement_deadline(c) {
        (s, Err(ErrorCode::DeadlineExceeded))
    } else if amount_of(s, investor) == 0 {
        (s, Err(ErrorCode::AlreadyClaimed))
    } else {
        let principal = s[index_of_investor(s, investor)].amount;
        if required_buyback(principal, c.yield_percentage) > u64::MAX {
            (s, Err(ErrorCode::ArithmeticOverflow))
        } else {
            (
                zero_amount_rec(s, investor),
                Ok(
                    LedgerTransfer {
                        from: c.admin,
                        to: investor,
                        asset_kind: c.asset_kind,
                        amount: required_buyback(principal, c.yield_percentage) as u64,
                    },
                ),
            )
        }
    }
}

/// Closes a contract whose every investor is settled. Terminal.
pub open spec fn close_contract_transition(
    c: Contract,
    s: Seq<InvestorRecord>,
    caller: u64,
) -> (Contract, Result<(), ErrorCode>) {
    if !c.status.in_buyback() {
        (c, Err(ErrorCode::InvalidStatus))
    } else if caller != c.admin {
        (c, Err(ErrorCode::Unauthorized))
    } else if !all_settled(s) {
        (c, Err(ErrorCode::InvalidStatus))
    } else {
        (Contract { status: ContractStatus::Settled, ..c }, Ok(()))
    }
}

/// The admin's one extension of the buyback window.
pub open spec fn prolong_contract_transition(c: Contract, caller: u64) -> (
    Contract,
    Result<(), ErrorCode>,
) {
    if !(c.status is PendingBuyback) {
        (c, Err(ErrorCode::InvalidStatus))
    } else if caller != c.admin {
        (c, Err(ErrorCode::Unauthorized))
    } else {
        (
            Contract {
                status: ContractStatus::Prolonged,
                prolonged_deadline: (c.buyback_deadline + PROLONG_WINDOW) as i64,
                ..c
            },
            Ok(()),
        )
    }
}

/// Marks a contract whose prolonged deadline passed unpaid. Terminal.
pub open spec fn default_contract_transition(c: Contract, now: i64) -> (
    Contract,
    Result<(), ErrorCode>,
) {
    if !(c.status is Prolonged) {
        (c, Err(ErrorCode::InvalidStatus))
    } else if now <= c.prolonged_deadline {
        (c, Err(ErrorCode::DeadlineNotYetReached))
    } else {
        (Contract { status: ContractStatus::Defaulted, ..c }, Ok(()))
    }
}

/// One investor's money back out of escrow after cancellation; zeroing the
/// record keeps the refund from repeating.
pub open spec fn refund_investor_transition(
    c: Contract,
    s: Seq<InvestorRecord>,
    investor: u64,
) -> (Seq<InvestorRecord>, Result<LedgerTransfer, ErrorCode>) {
    if !(c.status is Cancelled) {
        (s, Err(ErrorCode::InvalidStatus))
    } else if amount_of(s, investor) == 0 {
        (s, Err(ErrorCode::AlreadyClaimed))
    } else {
        let principal = s[index_of_investor(s, investor)].amount;
        (
            zero_amount_rec(s, investor),
            Ok(
                LedgerTransfer {
                    from: c.escrow_location,
                    to: investor,
                    asset_kind: c.asset_kind,
                    amount: principal,
                },
            ),
        )
    }
}

/// The one-time reward issuance decision for an investor: allowed once,
/// for an actor with a record.
pub open spec fn claim_reward_transition(s: Seq<InvestorRecord>, investor: u64) -> (
    Seq<InvestorRecord>,
    Result<(), ErrorCode>,
) {
    if !has_investor(s, investor) {
        (s, Err(ErrorCode::Unauthorized))
    } else if claimed_of(s, investor) {
        (s, Err(ErrorCode::AlreadyClaimed))
    } else {
        (set_claimed_rec(s, investor), Ok(()))
    }
}

} // verus!
