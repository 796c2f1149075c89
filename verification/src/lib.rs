//! An escrow-backed investment contract engine.
//!
//! An admin lists a funding need, investors contribute into a pooled escrow
//! up to a fixed target, the admin withdraws the pool for the investment
//! period, and afterwards must buy each investor out at principal plus yield.
//! The library is the lifecycle state machine: the legal transitions, the
//! time-window and amount guards on each of them, and the per-investor
//! accounting. Custody of funds, identity checks and durable storage are the
//! runtime's business; every transition here only decides, and hands back the
//! single ledger transfer it authorizes, as a plain value.
//!
//! Every operation takes the contract and its record store by exclusive
//! borrow, so transitions against one contract are serialized by
//! construction — the check-then-mutate sequence cannot interleave — while
//! independent contracts proceed independently. A runtime that shares a
//! contract across threads must wrap the pair in its own per-contract lock.

pub mod contract;
pub mod engine;
pub mod errors;
pub mod laws;
pub mod records;
pub mod transitions;
