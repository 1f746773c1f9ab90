//! A staking-pool ledger: users deposit a fungible asset into a shared pool,
//! the pool receives reward injections and burn (supply-reduction) events, and
//! each position's redeemable balance reflects its pro-rata share of every
//! reward and burn that occurred while its principal was deposited.
//!
//! The accounting is O(1) per user: the pool keeps two monotone fixed-point
//! indices (cumulative per-unit reward and per-unit loss), each position keeps
//! a snapshot of both, and settlement applies the net index delta to the
//! position's principal. Asset movement, account storage and authority
//! verification are collaborators outside this crate; the engine is a pure,
//! synchronous computation over in-memory records that either fully commits
//! or fully fails.

pub mod errors;
pub mod math;
pub mod state;
pub mod ledger;
pub mod settlement;
pub mod treasury;
pub mod laws;
