//! States of a spot order.
use vstd::prelude::*;

verus! {

/// Status of an order.
#[derive(Debug, Clone, Copy, PartialEq, Eq)]
pub enum OrderStatus {
    /// Open and waiting to be filled.
    Open,
    /// Closed and fully filled.
    Closed,
    /// Cancelled.
    Cancelled,
}

/// How an order came to its end.
#[derive(Debug, Clone, Copy, PartialEq, Eq)]
pub enum FinishAs {
    /// Awaiting processing.
    Open,
    /// Fully filled.
    Filled,
    /// Cancelled by the user.
    Cancelled,
    /// Cancelled by a liquidation.
    LiquidateCancelled,
    /// Cancelled for want of market depth.
    DepthNotEnough,
    /// Cancelled for want of a counterparty.
    TraderNotEnough,
    /// Quantity too small.
    Small,
    /// Not filled at once under IOC.
    Ioc,
    /// Would have taken liquidity under POC.
    Poc,
    /// Not filled in full at once under FOK.
    Fok,
    /// Cancelled by self-trade prevention.
    Stp,
    /// Unknown.
    Unknown,
}

} // verus!
