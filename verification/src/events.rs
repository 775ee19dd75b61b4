//! Order events: the only way order state ever changes. An order is created
//! from an `OrderInitialized` event and mutated exclusively by applying
//! further events, which are appended to its log.

use vstd::prelude::*;
use crate::enums::{ContingencyType, LiquiditySide, OrderSide, OrderType, TimeInForce, TriggerType};
use crate::ids::{
    AccountId, ClientOrderId, ExecAlgorithmId, InstrumentId, OrderListId, PositionId, StrategyId,
    TradeId, TraderId, VenueOrderId,
};
use crate::types::{Price, Quantity};
use crate::uuid4::Uuid4;

verus! {

/// The event an order is created from; it records every construction
/// parameter.
pub struct OrderInitialized {
    pub trader_id: TraderId,
    pub strategy_id: StrategyId,
    pub instrument_id: InstrumentId,
    pub client_order_id: ClientOrderId,
    pub order_side: OrderSide,
    pub order_type: OrderType,
    pub quantity: Quantity,
    pub time_in_force: TimeInForce,
    pub price: Option<Price>,
    pub trigger_price: Option<Price>,
    pub trigger_type: Option<TriggerType>,
    pub expire_time: Option<u64>,
    pub display_qty: Option<Quantity>,
    pub emulation_trigger: Option<TriggerType>,
    pub trigger_instrument_id: Option<InstrumentId>,
    pub contingency_type: Option<ContingencyType>,
    pub order_list_id: Option<OrderListId>,
    pub linked_order_ids: Option<Vec<ClientOrderId>>,
    pub parent_order_id: Option<ClientOrderId>,
    pub exec_algorithm_id: Option<ExecAlgorithmId>,
    pub exec_spawn_id: Option<ClientOrderId>,
    pub tags: Option<Vec<String>>,
    pub reduce_only: bool,
    pub quote_quantity: bool,
    pub event_id: Uuid4,
    pub ts_event: u64,
    pub ts_init: u64,
}

/// The order was denied before ever reaching a venue.
pub struct OrderDenied {
    pub reason: String,
    pub event_id: Uuid4,
    pub ts_event: u64,
}

/// The order was sent to a venue.
pub struct OrderSubmitted {
    pub trader_id: TraderId,
    pub strategy_id: StrategyId,
    pub instrument_id: InstrumentId,
    pub client_order_id: ClientOrderId,
    pub account_id: AccountId,
    pub event_id: Uuid4,
    pub ts_event: u64,
}

/// The venue acknowledged the order and assigned it an identifier.
pub struct OrderAccepted {
    pub venue_order_id: VenueOrderId,
    pub account_id: AccountId,
    pub event_id: Uuid4,
    pub ts_event: u64,
}

/// The venue rejected the order.
pub struct OrderRejected {
    pub reason: String,
    pub event_id: Uuid4,
    pub ts_event: u64,
}

/// The order was canceled.
pub struct OrderCanceled {
    pub event_id: Uuid4,
    pub ts_event: u64,
}

/// The order expired at the venue.
pub struct OrderExpired {
    pub event_id: Uuid4,
    pub ts_event: u64,
}

/// The order's trigger condition fired.
pub struct OrderTriggered {
    pub event_id: Uuid4,
    pub ts_event: u64,
}

/// An update of the order is awaiting venue confirmation.
pub struct OrderPendingUpdate {
    pub event_id: Uuid4,
    pub ts_event: u64,
}

/// A cancel of the order is awaiting venue confirmation.
pub struct OrderPendingCancel {
    pub event_id: Uuid4,
    pub ts_event: u64,
}

/// The venue confirmed an update of the order's quantity and prices.
pub struct OrderUpdated {
    pub quantity: Quantity,
    pub price: Option<Price>,
    pub trigger_price: Option<Price>,
    pub event_id: Uuid4,
    pub ts_event: u64,
}

/// Part or all of the order traded.
pub struct OrderFilled {
    pub trade_id: TradeId,
    pub venue_order_id: VenueOrderId,
    pub account_id: AccountId,
    pub position_id: Option<PositionId>,
    pub last_qty: Quantity,
    pub last_px: Price,
    pub liquidity_side: LiquiditySide,
    pub event_id: Uuid4,
    pub ts_event: u64,
}

/// Any order event.
pub enum OrderEventAny {
    Initialized(OrderInitialized),
    Denied(OrderDenied),
    Submitted(OrderSubmitted),
    Accepted(OrderAccepted),
    Rejected(OrderRejected),
    Canceled(OrderCanceled),
    Expired(OrderExpired),
    Triggered(OrderTriggered),
    PendingUpdate(OrderPendingUpdate),
    PendingCancel(OrderPendingCancel),
    Updated(OrderUpdated),
    Filled(OrderFilled),
}

impl OrderEventAny {
    /// The time the event occurred at.
    pub open spec fn ts_event_spec(&self) -> u64 {
        match self {
            OrderEventAny::Initialized(e) => e.ts_event,
            OrderEventAny::Denied(e) => e.ts_event,
            OrderEventAny::Submitted(e) => e.ts_event,
            OrderEventAny::Accepted(e) => e.ts_event,
            OrderEventAny::Rejected(e) => e.ts_event,
            OrderEventAny::Canceled(e) => e.ts_event,
            OrderEventAny::Expired(e) => e.ts_event,
            OrderEventAny::Triggered(e) => e.ts_event,
            OrderEventAny::PendingUpdate(e) => e.ts_event,
            OrderEventAny::PendingCancel(e) => e.ts_event,
            OrderEventAny::Updated(e) => e.ts_event,
            OrderEventAny::Filled(e) => e.ts_event,
        }
    }

    /// The time the event occurred at.
    pub fn ts_event(&self) -> (r: u64)
        ensures
            r == self.ts_event_spec(),
    {
        match self {
            OrderEventAny::Initialized(e) => e.ts_event,
            OrderEventAny::Denied(e) => e.ts_event,
            OrderEventAny::Submitted(e) => e.ts_event,
            OrderEventAny::Accepted(e) => e.ts_event,
            OrderEventAny::Rejected(e) => e.ts_event,
            OrderEventAny::Canceled(e) => e.ts_event,
            OrderEventAny::Expired(e) => e.ts_event,
            OrderEventAny::Triggered(e) => e.ts_event,
            OrderEventAny::PendingUpdate(e) => e.ts_event,
            OrderEventAny::PendingCancel(e) => e.ts_event,
            OrderEventAny::Updated(e) => e.ts_event,
            OrderEventAny::Filled(e) => e.ts_event,
        }
    }
}

} // verus!
