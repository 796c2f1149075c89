//! The lifecycle laws, proved once and for all over the transition
//! functions that the engine's operations are proved to compute.

use vstd::prelude::*;

use crate::contract::Contract;
use crate::contract::MAX_TIME;
use crate::engine::campaign_inv;
use crate::engine::funding_consistent;
use crate::errors::ErrorCode;
use crate::records::InvestorRecord;
use crate::records::lemma_amount_le_sum;
use crate::records::lemma_claim_effect;
use crate::records::lemma_sum_nonneg;
use crate::records::lemma_upsert_effect;
use crate::records::lemma_zero_effect;
use crate::records::sum_amounts;
use crate::transitions::admin_cancel_transition;
use crate::transitions::admin_withdraw_transition;
use crate::transitions::check_maturity_transition;
use crate::transitions::claim_reward_transition;
use crate::transitions::close_contract_transition;
use crate::transitions::default_contract_transition;
use crate::transitions::expire_funding_transition;
use crate::transitions::invest_transition;
use crate::transitions::prolong_contract_transition;
use crate::transitions::refund_investor_transition;
use crate::transitions::settle_investor_transition;
use crate::transitions::verify_funding_transition;

verus! {

/// What the campaign invariant pins down in any reachable state: the
/// funded sum lies between zero and the target, the recorded principals
/// never sum to more than it, and they sum to exactly it until settlement
/// or refund begins.
pub proof fn lemma_campaign_bounds(c: Contract, s: Seq<InvestorRecord>)
    requires
        campaign_inv(c, s),
    ensures
        0 <= c.amount_funded_so_far <= c.total_investment_needed,
        0 <= sum_amounts(s) <= c.amount_funded_so_far,
        !(c.status.in_buyback() || c.status.is_terminal()) ==> sum_amounts(s)
            == c.amount_funded_so_far,
{
    lemma_sum_nonneg(s);
}

/// Every operation carries the campaign invariant from its pre-state to
/// its post-state, whether it succeeds or reports an error.
pub proof fn lemma_invariant_preserved(
    c: Contract,
    s: Seq<InvestorRecord>,
    caller: u64,
    investor: u64,
    amount: u64,
    now: i64,
)
    requires
        campaign_inv(c, s),
        0 <= now <= MAX_TIME,
    ensures
        campaign_inv(
            invest_transition(c, s, investor, amount, now).0,
            invest_transition(c, s, investor, amount, now).1,
        ),
        campaign_inv(verify_funding_transition(c, caller, now).0, s),
        campaign_inv(expire_funding_transition(c, now).0, s),
        campaign_inv(admin_withdraw_transition(c, caller, now).0, s),
        campaign_inv(admin_cancel_transition(c, caller, now).0, s),
        campaign_inv(check_maturity_transition(c, now).0, s),
        campaign_inv(c, settle_investor_transition(c, s, caller, investor, now).0),
        campaign_inv(close_contract_transition(c, s, caller).0, s),
        campaign_inv(prolong_contract_transition(c, caller).0, s),
        campaign_inv(default_contract_transition(c, now).0, s),
        campaign_inv(c, refund_investor_transition(c, s, investor).0),
        campaign_inv(c, claim_reward_transition(s, investor).0),
{
    lemma_sum_nonneg(s);
    lemma_amount_le_sum(s, investor);
    if c.status.accepts_contributions() && now <= c.funding_deadline && amount
        <= c.total_investment_needed - c.amount_funded_so_far {
        lemma_upsert_effect(s, c.contract_id, investor, amount);
    }
    lemma_zero_effect(s, investor);
    lemma_claim_effect(s, investor);
}

/// Funding only ever grows: a contribution raises the funded sum by its
/// amount, and no other operation changes the sum at all — cancellation
/// and expiry end the lifecycle without rewriting the funding history.
pub proof fn lemma_funding_monotonic(
    c: Contract,
    s: Seq<InvestorRecord>,
    caller: u64,
    investor: u64,
    amount: u64,
    now: i64,
)
    ensures
        invest_transition(c, s, investor, amount, now).0.amount_funded_so_far
            >= c.amount_funded_so_far,
        invest_transition(c, s, investor, amount, now).1 == s || invest_transition(
            c,
            s,
            investor,
            amount,
            now,
        ).0.amount_funded_so_far == c.amount_funded_so_far + amount,
        verify_funding_transition(c, caller, now).0.amount_funded_so_far
            == c.amount_funded_so_far,
        expire_funding_transition(c, now).0.amount_funded_so_far == c.amount_funded_so_far,
        admin_withdraw_transition(c, caller, now).0.amount_funded_so_far
            == c.amount_funded_so_far,
        admin_cancel_transition(c, caller, now).0.amount_funded_so_far == c.amount_funded_so_far,
        check_maturity_transition(c, now).0.amount_funded_so_far == c.amount_funded_so_far,
        close_contract_transition(c, s, caller).0.amount_funded_so_far == c.amount_funded_so_far,
        prolong_contract_transition(c, caller).0.amount_funded_so_far == c.amount_funded_so_far,
        default_contract_transition(c, now).0.amount_funded_so_far == c.amount_funded_so_far,
{
    if c.status.accepts_contributions() && now <= c.funding_deadline && amount
        <= c.total_investment_needed - c.amount_funded_so_far {
        assert(c.amount_funded_so_far + amount <= c.total_investment_needed);
    }
}

/// A contribution that would push the funded sum past the target is
/// rejected with `AmountExceedsCapacity` and changes nothing.
pub proof fn lemma_no_overfunding(
    c: Contract,
    s: Seq<InvestorRecord>,
    investor: u64,
    amount: u64,
    now: i64,
)
    requires
        campaign_inv(c, s),
        c.status.accepts_contributions(),
        now <= c.funding_deadline,
        c.amount_funded_so_far + amount > c.total_investment_needed,
    ensures
        invest_transition(c, s, investor, amount, now).0 == c,
        invest_transition(c, s, investor, amount, now).1 == s,
        invest_transition(c, s, investor, amount, now).2 == Err::<
            crate::transitions::LedgerTransfer,
            ErrorCode,
        >(ErrorCode::AmountExceedsCapacity),
{
}

/// A contribution after the funding deadline is rejected with
/// `DeadlineExceeded` and changes nothing, however much room is left
/// under the target.
pub proof fn lemma_deadline_enforced(
    c: Contract,
    s: Seq<InvestorRecord>,
    investor: u64,
    amount: u64,
    now: i64,
)
    requires
        c.status.accepts_contributions(),
        now > c.funding_deadline,
    ensures
        invest_transition(c, s, investor, amount, now).0 == c,
        invest_transition(c, s, investor, amount, now).1 == s,
        invest_transition(c, s, investor, amount, now).2 == Err::<
            crate::transitions::LedgerTransfer,
            ErrorCode,
        >(ErrorCode::DeadlineExceeded),
{
}

/// Settlement cannot repeat: once a settlement of `investor` succeeds,
/// any further settlement of the same investor — whoever calls it,
/// whenever — fails and authorizes no transfer, because the paid-out
/// record has nothing left.
pub proof fn lemma_settle_idempotent(
    c: Contract,
    s: Seq<InvestorRecord>,
    caller: u64,
    investor: u64,
    now: i64,
    caller2: u64,
    now2: i64,
)
    requires
        campaign_inv(c, s),
        settle_investor_transition(c, s, caller, investor, now).1 is Ok,
    ensures
        ({
            let s1 = settle_investor_transition(c, s, caller, investor, now).0;
            &&& settle_investor_transition(c, s1, caller2, investor, now2).0 == s1
            &&& settle_investor_transition(c, s1, caller2, investor, now2).1 is Err
        }),
{
    lemma_zero_effect(s, investor);
}

/// Refunds cannot repeat either: after one refund of `investor`, a second
/// asks for nothing.
pub proof fn lemma_refund_idempotent(c: Contract, s: Seq<InvestorRecord>, investor: u64)
    requires
        campaign_inv(c, s),
        refund_investor_transition(c, s, investor).1 is Ok,
    ensures
        ({
            let s1 = refund_investor_transition(c, s, investor).0;
            &&& refund_investor_transition(c, s1, investor).0 == s1
            &&& refund_investor_transition(c, s1, investor).1 == Err::<
                crate::transitions::LedgerTransfer,
                ErrorCode,
            >(ErrorCode::AlreadyClaimed)
        }),
{
    lemma_zero_effect(s, investor);
}

/// The one-time reward cannot repeat: once issued to `investor`, a second
/// claim fails with `AlreadyClaimed` and changes nothing.
pub proof fn lemma_claim_once(s: Seq<InvestorRecord>, investor: u64)
    requires
        crate::records::distinct_investors(s),
        claim_reward_transition(s, investor).1 is Ok,
    ensures
        ({
            let s1 = claim_reward_transition(s, investor).0;
            &&& claim_reward_transition(s1, investor).0 == s1
            &&& claim_reward_transition(s1, investor).1 == Err::<(), ErrorCode>(
                ErrorCode::AlreadyClaimed,
            )
        }),
{
    lemma_claim_effect(s, investor);
}

/// Any operation applied in a lifecycle state that does not permit it
/// fails with `InvalidStatus` and leaves both the contract and the records
/// exactly as they were.
pub proof fn lemma_illegal_status_rejected(
    c: Contract,
    s: Seq<InvestorRecord>,
    caller: u64,
    investor: u64,
    amount: u64,
    now: i64,
)
    ensures
        !c.status.accepts_contributions() ==> invest_transition(c, s, investor, amount, now).0
            == c && invest_transition(c, s, investor, amount, now).1 == s && invest_transition(
            c,
            s,
            investor,
            amount,
            now,
        ).2 == Err::<crate::transitions::LedgerTransfer, ErrorCode>(ErrorCode::InvalidStatus),
        !(c.status is Funding) ==> verify_funding_transition(c, caller, now) == (
            c,
            Err::<(), ErrorCode>(ErrorCode::InvalidStatus),
        ),
        !c.status.accepts_contributions() ==> expire_funding_transition(c, now) == (
            c,
            Err::<(), ErrorCode>(ErrorCode::InvalidStatus),
        ),
        !(c.status is FundedPendingVerification) ==> admin_withdraw_transition(c, caller, now)
            == (
            c,
            Err::<crate::transitions::LedgerTransfer, ErrorCode>(ErrorCode::InvalidStatus),
        ),
        !(c.status is FundedPendingVerification) ==> admin_cancel_transition(c, caller, now) == (
            c,
            Err::<(), ErrorCode>(ErrorCode::InvalidStatus),
        ),
        !(c.status is Active) ==> check_maturity_transition(c, now) == (
            c,
            Err::<(), ErrorCode>(ErrorCode::InvalidStatus),
        ),
        !c.status.in_buyback() ==> settle_investor_transition(c, s, caller, investor, now) == (
            s,
            Err::<crate::transitions::LedgerTransfer, ErrorCode>(ErrorCode::InvalidStatus),
        ),
        !c.status.in_buyback() ==> close_contract_transition(c, s, caller) == (
            c,
            Err::<(), ErrorCode>(ErrorCode::InvalidStatus),
        ),
        !(c.status is PendingBuyback) ==> prolong_contract_transition(c, caller) == (
            c,
            Err::<(), ErrorCode>(ErrorCode::InvalidStatus),
        ),
        !(c.status is Prolonged) ==> default_contract_transition(c, now) == (
            c,
            Err::<(), ErrorCode>(ErrorCode::InvalidStatus),
        ),
        !(c.status is Cancelled) ==> refund_investor_transition(c, s, investor) == (
            s,
            Err::<crate::transitions::LedgerTransfer, ErrorCode>(ErrorCode::InvalidStatus),
        ),
{
}

/// In particular no operation leaves a terminal state: settled, defaulted
/// and cancelled contracts never change again (the cancelled contract's
/// records drain only through the per-investor refund).
pub proof fn lemma_terminal_frozen(
    c: Contract,
    s: Seq<InvestorRecord>,
    caller: u64,
    investor: u64,
    amount: u64,
    now: i64,
)
    requires
        c.status.is_terminal(),
    ensures
        invest_transition(c, s, investor, amount, now).0 == c,
        verify_funding_transition(c, caller, now).0 == c,
        expire_funding_transition(c, now).0 == c,
        admin_withdraw_transition(c, caller, now).0 == c,
        admin_cancel_transition(c, caller, now).0 == c,
        check_maturity_transition(c, now).0 == c,
        close_contract_transition(c, s, caller).0 == c,
        prolong_contract_transition(c, caller).0 == c,
        default_contract_transition(c, now).0 == c,
{
}

/// A contract can only close once every investor is bought out: a
/// successful close finds every recorded principal at zero — equivalently,
/// the recorded sum drained to nothing.
pub proof fn lemma_close_requires_full_settlement(
    c: Contract,
    s: Seq<InvestorRecord>,
    caller: u64,
)
    requires
        close_contract_transition(c, s, caller).1 is Ok,
    ensures
        crate::records::all_settled(s),
        sum_amounts(s) == 0,
        close_contract_transition(c, s, caller).0.status is Settled,
{
    crate::records::lemma_sum_zero(s);
}

/// What `funding_consistent` says before settlement, spelled out: the sum
/// of recorded principals is the funded total itself.
pub proof fn lemma_sum_matches_funding(c: Contract, s: Seq<InvestorRecord>)
    requires
        campaign_inv(c, s),
        !c.status.in_buyback(),
        !c.status.is_terminal(),
    ensures
        sum_amounts(s) == c.amount_funded_so_far,
        funding_consistent(c, s),
{
}

} // verus!
