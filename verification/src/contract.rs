//! The contract aggregate: one funding campaign, its lifecycle status,
//! its funding totals and its deadlines.
//!
//! Identities (admin, investors, asset kind, escrow location) are opaque
//! handles to the engine: it only ever compares them, so they are carried
//! as plain numbers. Timestamps are seconds, compared against the `now`
//! each operation receives; every stored instant is bounded by `MAX_TIME`
//! plus the fixed windows, which keeps all deadline arithmetic in range.

use vstd::prelude::*;

use crate::errors::ErrorCode;

verus! {

/// Seconds in the window investors have to fill the target, from creation.
pub const FUNDING_WINDOW: i64 = 30 * 86400;

/// Seconds the admin has, from full-funding verification, to withdraw or cancel.
pub const ADMIN_WINDOW: i64 = 30 * 86400;

/// Seconds the admin has, from maturity, to buy the investors out.
pub const BUYBACK_WINDOW: i64 = 30 * 86400;

/// Seconds one prolongation adds past the buyback deadline.
pub const PROLONG_WINDOW: i64 = 14 * 86400;

/// Upper bound on every instant and duration handed to the engine, far
/// beyond any realistic clock; it keeps each deadline sum inside `i64`.
pub const MAX_TIME: i64 = 0x1000_0000_0000_0000;

/// The lifecycle states of a contract. No other transitions than the ones
/// the engine's operations make are legal.
#[derive(Clone, Copy, Debug, PartialEq, Eq, Structural)]
pub enum ContractStatus {
    /// Created by the admin; no contribution accepted yet counted.
    Created,
    /// At least one contribution accepted, target not yet verified reached.
    Funding,
    /// Fully funded (or verified by the admin); awaiting withdrawal or cancel.
    FundedPendingVerification,
    /// The admin withdrew the pool; the investment period runs.
    Active,
    /// The investment period ended; buyback is due.
    PendingBuyback,
    /// The buyback deadline was extended once.
    Prolonged,
    /// Every investor was bought out and the contract closed. Terminal.
    Settled,
    /// The admin failed to repay in time. Terminal.
    Defaulted,
    /// Funding expired or the admin cancelled; contributions are refundable. Terminal.
    Cancelled,
}

impl ContractStatus {
    /// States in which a contribution may be accepted.
    pub open spec fn accepts_contributions(self) -> bool {
        self is Created || self is Funding
    }

    /// States in which settlement, prolongation and closing are decided.
    pub open spec fn in_buyback(self) -> bool {
        self is PendingBuyback || self is Prolonged
    }

    /// States that end the lifecycle; no transition leaves them.
    pub open spec fn is_terminal(self) -> bool {
        self is Settled || self is Defaulted || self is Cancelled
    }
}

/// One funding campaign. Identity and deadline fields are fixed at the
/// transition that sets them; only `status`, `amount_funded_so_far` and the
/// per-status timestamps ever change, and only as the engine's operations say.
#[derive(Clone, Debug, PartialEq, Eq)]
pub struct Contract {
    /// Identity of the actor who created and administers the contract.
    pub admin: u64,
    /// Identity of the one fungible asset the contract accepts.
    pub asset_kind: u64,
    /// Identity of the custody location pooling contributions until withdrawal.
    pub escrow_location: u64,
    /// Distinguishes this campaign among those of the same admin.
    pub contract_id: u64,
    /// The funding target; positive, fixed at creation.
    pub total_investment_needed: u64,
    /// Running sum of accepted contributions; never exceeds the target.
    pub amount_funded_so_far: u64,
    /// Signed percentage applied to each principal for the buyback.
    pub yield_percentage: i64,
    /// Length of the investment period once withdrawn, in seconds.
    pub duration: i64,
    /// The current lifecycle state.
    pub status: ContractStatus,
    /// When the contract was created.
    pub upload_date: i64,
    /// `upload_date` plus the funding window.
    pub funding_deadline: i64,
    /// When the admin withdrew the pool; meaningful from `Active` on.
    pub start_time: i64,
    /// When full funding was reached or verified.
    pub funded_time: i64,
    /// End of the buyback window; meaningful from `PendingBuyback` on.
    pub buyback_deadline: i64,
    /// End of the prolonged window; meaningful in `Prolonged`.
    pub prolonged_deadline: i64,
    /// Display-only metadata; opaque to the state machine.
    pub farm_name: String,
    /// Display-only metadata; opaque to the state machine.
    pub farm_address: String,
    /// Display-only metadata; opaque to the state machine.
    pub image_reference: String,
}

impl Contract {
    /// Well-formedness: the funded sum never exceeds the positive target,
    /// and every stored instant lies in the range that keeps deadline
    /// arithmetic free of overflow.
    pub open spec fn wf(self) -> bool {
        &&& 0 < self.total_investment_needed
        &&& self.amount_funded_so_far <= self.total_investment_needed
        &&& 0 <= self.upload_date <= MAX_TIME
        &&& 0 <= self.funding_deadline <= MAX_TIME + FUNDING_WINDOW
        &&& 0 <= self.duration <= MAX_TIME
        &&& 0 <= self.start_time <= MAX_TIME
        &&& 0 <= self.funded_time <= MAX_TIME
        &&& 0 <= self.buyback_deadline <= 2 * MAX_TIME + BUYBACK_WINDOW
        &&& 0 <= self.prolonged_deadline <= 2 * MAX_TIME + BUYBACK_WINDOW + PROLONG_WINDOW
    }

    /// The buyback owed on the whole target, at this contract's yield.
    pub fn calculate_buyback(&self) -> (r: u64)
        requires
            required_buyback(self.total_investment_needed, self.yield_percentage) <= u64::MAX,
        ensures
            r == required_buyback(self.total_investment_needed, self.yield_percentage),
    {
        match checked_buyback(self.total_investment_needed, self.yield_percentage) {
            Ok(v) => v,
            Err(_) => {
                proof {
                    assert(false);
                }
                0
            },
        }
    }
}

/// The yield owed on `principal` at `yield_percentage`: the product over
/// one hundred, truncated toward zero, so a negative percentage yields the
/// mirror of the positive one.
pub open spec fn yield_amount(principal: u64, yield_percentage: i64) -> int {
    if yield_percentage >= 0 {
        (principal * yield_percentage) / 100
    } else {
        -((principal * -(yield_percentage as int)) / 100)
    }
}

/// The repayment owed on one principal: principal plus yield, floored at
/// zero so a deeply negative percentage never asks for a negative transfer.
pub open spec fn required_buyback(principal: u64, yield_percentage: i64) -> int {
    let total = principal + yield_amount(principal, yield_percentage);
    if total < 0 {
        0
    } else {
        total
    }
}

/// Computes `required_buyback` in a widened width, reporting the one case
/// where the result does not fit the amount type.
pub fn checked_buyback(principal: u64, yield_percentage: i64) -> (r: Result<u64, ErrorCode>)
    ensures
        r is Ok <==> required_buyback(principal, yield_percentage) <= u64::MAX,
        r matches Ok(v) ==> v == required_buyback(principal, yield_percentage),
        r is Err ==> r == Err::<u64, ErrorCode>(ErrorCode::ArithmeticOverflow),
{
    let p: u128 = principal as u128;
    if yield_percentage >= 0 {
        let pct: u128 = yield_percentage as u128;
        assert(p * pct <= u64::MAX * (i64::MAX as u128)) by (nonlinear_arith)
            requires
                p <= u64::MAX,
                pct <= i64::MAX as u128,
        ;
        let y: u128 = (p * pct) / 100;
        if y > u64::MAX as u128 {
            return Err(ErrorCode::ArithmeticOverflow);
        }
        let total: u128 = p + y;
        if total > u64::MAX as u128 {
            Err(ErrorCode::ArithmeticOverflow)
        } else {
            Ok(total as u64)
        }
    } else {
        let mag: u128 = (-(yield_percentage as i128)) as u128;
        assert(p * mag <= u64::MAX * 0x8000_0000_0000_0000u128) by (nonlinear_arith)
            requires
                p <= u64::MAX,
                mag <= 0x8000_0000_0000_0000u128,
        ;
        let y: u128 = (p * mag) / 100;
        if y >= p {
            Ok(0)
        } else {
            Ok((p - y) as u64)
        }
    }
}

} // verus!
