//! The failure taxonomy of the ledger. Every error is fail-fast and
//! caller-visible: an operation that fails leaves the pool and the position
//! exactly as they were.

use vstd::prelude::*;

verus! {

/// Why a ledger operation was refused.
#[derive(Clone, Copy, Debug, PartialEq, Eq, Structural)]
pub enum StakeError {
    /// A checked arithmetic step would exceed its type's range.
    ArithmeticOverflow,
    /// A withdrawal, burn or donation draw exceeds the available balance.
    InsufficientFunds,
    /// A value-moving call was made with amount zero.
    ZeroAmount,
    /// The caller is not the recognized pool authority. The engine never
    /// computes this check itself; the surrounding system performs it and
    /// reports its failure with this variant.
    InvalidAuthority,
    /// Cumulative burns exceed cumulative rewards by more than the position's
    /// value, so settlement would drive the principal negative.
    UnderflowBeyondZero,
}

} // verus!
