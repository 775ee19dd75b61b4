//! Enumerations shared across the order domain, the data subscriptions and
//! the execution clients.

use vstd::prelude::*;

verus! {

/// The side of an order.
#[derive(Clone, Copy, Debug, PartialEq, Eq, Structural, Hash)]
pub enum OrderSide {
    Buy,
    Sell,
}

/// The kind of an order.
#[derive(Clone, Copy, Debug, PartialEq, Eq, Structural, Hash)]
pub enum OrderType {
    Market,
    Limit,
    StopMarket,
    StopLimit,
    MarketToLimit,
    MarketIfTouched,
    LimitIfTouched,
    TrailingStopMarket,
    TrailingStopLimit,
}

/// The lifecycle status of an order.
#[derive(Clone, Copy, Debug, PartialEq, Eq, Structural, Hash)]
pub enum OrderStatus {
    Initialized,
    Denied,
    Submitted,
    Rejected,
    Accepted,
    Canceled,
    Expired,
    Triggered,
    PendingUpdate,
    PendingCancel,
    PartiallyFilled,
    Filled,
}

/// How long an order remains in force.
#[derive(Clone, Copy, Debug, PartialEq, Eq, Structural, Hash)]
pub enum TimeInForce {
    Gtc,
    Ioc,
    Fok,
    Gtd,
    Day,
    AtTheOpen,
    AtTheClose,
}

/// The price source that triggers a conditional order.
#[derive(Clone, Copy, Debug, PartialEq, Eq, Structural, Hash)]
pub enum TriggerType {
    Default,
    LastPrice,
    MarkPrice,
    IndexPrice,
    BidAsk,
}

/// A contingency relation among linked orders.
#[derive(Clone, Copy, Debug, PartialEq, Eq, Structural, Hash)]
pub enum ContingencyType {
    Oco,
    Oto,
    Ouo,
}

/// Which side of the book a fill took liquidity from.
#[derive(Clone, Copy, Debug, PartialEq, Eq, Structural, Hash)]
pub enum LiquiditySide {
    Maker,
    Taker,
}

/// The side of a position.
#[derive(Clone, Copy, Debug, PartialEq, Eq, Structural, Hash)]
pub enum PositionSide {
    Flat,
    Long,
    Short,
}

/// The order-management mode governing position aggregation.
#[derive(Clone, Copy, Debug, PartialEq, Eq, Structural, Hash)]
pub enum OmsType {
    Unspecified,
    Netting,
    Hedging,
}

/// The granularity of an order book.
#[derive(Clone, Copy, Debug, PartialEq, Eq, Structural, Hash)]
pub enum BookType {
    L1Mbp,
    L2Mbp,
    L3Mbo,
}

} // verus!
