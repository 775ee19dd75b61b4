//! Market data values: quotes, trades, bars, instrument definitions and book
//! snapshots, held as plain fixed-point values.

use vstd::prelude::*;
use crate::ids::{BarType, InstrumentId, TradeId};
use crate::types::{Price, Quantity};

verus! {

/// A top-of-book quote.
pub struct QuoteTick {
    pub instrument_id: InstrumentId,
    pub bid_price: Price,
    pub ask_price: Price,
    pub bid_size: Quantity,
    pub ask_size: Quantity,
    pub ts_event: u64,
    pub ts_init: u64,
}

/// A single trade.
pub struct TradeTick {
    pub instrument_id: InstrumentId,
    pub price: Price,
    pub size: Quantity,
    pub trade_id: TradeId,
    pub ts_event: u64,
    pub ts_init: u64,
}

/// An aggregated bar.
pub struct Bar {
    pub bar_type: BarType,
    pub open: Price,
    pub high: Price,
    pub low: Price,
    pub close: Price,
    pub volume: Quantity,
    pub ts_event: u64,
    pub ts_init: u64,
}

/// An instrument definition: the identity and tick sizes the core needs.
pub struct Instrument {
    pub id: InstrumentId,
    pub price_increment: Price,
    pub size_increment: Quantity,
}

/// One price level of a book snapshot.
pub struct BookLevel {
    pub price: Price,
    pub size: Quantity,
}

/// A snapshot of an order book.
pub struct BookSnapshot {
    pub instrument_id: InstrumentId,
    pub bids: Vec<BookLevel>,
    pub asks: Vec<BookLevel>,
    pub ts_event: u64,
}

/// Any streaming market data value.
pub enum Data {
    Quote(QuoteTick),
    Trade(TradeTick),
    Bar(Bar),
}

} // verus!
