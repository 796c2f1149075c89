//! The error taxonomy of the lifecycle engine.
//!
//! Every guard failure is reported to the caller through one of these
//! variants, and an operation that fails leaves the contract and its
//! investor records exactly as they were.

use vstd::prelude::*;

verus! {

/// Why a transition was refused. Each operation's contract states exactly
/// which variant comes back on which inputs.
#[derive(Clone, Copy, Debug, PartialEq, Eq, Structural)]
pub enum ErrorCode {
    /// The operation is not legal in the contract's current lifecycle state.
    InvalidStatus,
    /// The time window for the operation has closed.
    DeadlineExceeded,
    /// The operation was attempted before its time window opened.
    DeadlineNotYetReached,
    /// The contribution would push the funded sum past the target.
    AmountExceedsCapacity,
    /// The repayment on offer is below the computed requirement.
    InsufficientBuyback,
    /// The caller is not the admin or the expected investor.
    Unauthorized,
    /// The asset offered is not the asset the contract accepts.
    AssetMismatch,
    /// The investor was already settled, refunded, or issued a reward.
    AlreadyClaimed,
    /// The buyback computation would not fit the amount width.
    ArithmeticOverflow,
}

} // verus!
