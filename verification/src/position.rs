//! Positions and their lifecycle events. A position is derived exclusively
//! from applied fills; its events are built from a (position, triggering
//! fill) pair at the moment of mutation.

use vstd::prelude::*;
use crate::enums::{OrderSide, PositionSide};
use crate::events::OrderFilled;
use crate::ids::{AccountId, ClientOrderId, InstrumentId, PositionId, StrategyId, TraderId};
use crate::types::{Price, Quantity};
use crate::uuid4::Uuid4;

verus! {

/// A position: signed quantity and average open price aggregated from fills.
pub struct Position {
    pub trader_id: TraderId,
    pub strategy_id: StrategyId,
    pub instrument_id: InstrumentId,
    pub id: PositionId,
    pub account_id: AccountId,
    pub opening_order_id: ClientOrderId,
    pub entry: OrderSide,
    pub side: PositionSide,
    /// The signed quantity mantissa: positive long, negative short.
    pub signed_qty: i64,
    pub quantity: Quantity,
    pub quote_currency: String,
    /// The average open price mantissa.
    pub avg_px_open: u64,
}

/// The event recording that a position has been opened.
pub struct PositionOpened {
    pub trader_id: TraderId,
    pub strategy_id: StrategyId,
    pub instrument_id: InstrumentId,
    pub position_id: PositionId,
    pub account_id: AccountId,
    pub opening_order_id: ClientOrderId,
    pub entry: OrderSide,
    pub side: PositionSide,
    pub signed_qty: i64,
    pub quantity: Quantity,
    pub last_qty: Quantity,
    pub last_px: Price,
    pub currency: String,
    pub avg_px_open: u64,
    pub event_id: Uuid4,
    pub ts_event: u64,
    pub ts_init: u64,
}

impl PositionOpened {
    /// Builds the opening event from the position snapshot and the fill
    /// that caused it: every field is copied from its source, and the event
    /// time is the fill's.
    pub fn create(position: &Position, fill: &OrderFilled, event_id: Uuid4, ts_init: u64) -> (r:
        PositionOpened)
        ensures
            r.trader_id == position.trader_id,
            r.strategy_id == position.strategy_id,
            r.instrument_id == position.instrument_id,
            r.position_id == position.id,
            r.account_id == position.account_id,
            r.opening_order_id == position.opening_order_id,
            r.entry == position.entry,
            r.side == position.side,
            r.signed_qty == position.signed_qty,
            r.quantity == position.quantity,
            r.last_qty == fill.last_qty,
            r.last_px == fill.last_px,
            r.currency == position.quote_currency,
            r.avg_px_open == position.avg_px_open,
            r.event_id == event_id,
            r.ts_event == fill.ts_event,
            r.ts_init == ts_init,
    {
        PositionOpened {
            trader_id: position.trader_id.clone(),
            strategy_id: position.strategy_id.clone(),
            instrument_id: position.instrument_id.clone(),
            position_id: position.id.clone(),
            account_id: position.account_id.clone(),
            opening_order_id: position.opening_order_id.clone(),
            entry: position.entry,
            side: position.side,
            signed_qty: position.signed_qty,
            quantity: position.quantity,
            last_qty: fill.last_qty,
            last_px: fill.last_px,
            currency: position.quote_currency.clone(),
            avg_px_open: position.avg_px_open,
            event_id,
            ts_event: fill.ts_event,
            ts_init,
        }
    }
}

} // verus!
