//! The event-sourced order state machine. An order is created from an
//! `OrderInitialized` event and changes only through `apply`, which checks
//! the transition against the status table, appends the event to the log,
//! and keeps the fill bookkeeping exact: at every point
//! `filled_qty + leaves_qty == quantity`.

use vstd::prelude::*;
use vstd::arithmetic::div_mod::{lemma_div_by_multiple, lemma_div_is_ordered};
use crate::enums::{ContingencyType, OrderSide, OrderStatus, OrderType, TimeInForce, TriggerType};
use crate::events::{OrderEventAny, OrderInitialized};
use crate::ids::{
    AccountId, ClientOrderId, ExecAlgorithmId, InstrumentId, OrderListId, PositionId, StrategyId,
    TradeId, TraderId, VenueOrderId,
};
use crate::types::{Price, Quantity, MAX_PRICE_RAW};
use crate::uuid4::Uuid4;

verus! {

/// Why an order operation was refused.
#[derive(Clone, Copy, Debug, PartialEq, Eq, Structural)]
pub enum OrderError {
    /// The quantity was not positive.
    InvalidQuantity,
    /// A price was not positive.
    InvalidPrice,
    /// The display quantity was not positive or exceeded the order quantity.
    InvalidDisplayQty,
    /// A GTD order was built without a non-zero expire time.
    GtdWithoutExpireTime,
    /// The order's status does not accept the applied event.
    InvalidStateTransition,
}

/// The statuses from which a cancel, an expiry or a fill may arrive: the
/// order is working at the venue.
pub open spec fn is_working(s: OrderStatus) -> bool {
    ||| s == OrderStatus::Accepted
    ||| s == OrderStatus::Triggered
    ||| s == OrderStatus::PartiallyFilled
    ||| s == OrderStatus::PendingUpdate
    ||| s == OrderStatus::PendingCancel
}

/// The status table: the status after applying an event of the given kind in
/// status `s`, or `None` where the event is illegal there. For a fill,
/// `full_fill` says whether it exhausts the leaves.
pub open spec fn transition_spec(s: OrderStatus, event: OrderEventAny, full_fill: bool) -> Option<
    OrderStatus,
> {
    match event {
        OrderEventAny::Initialized(_) => None,
        OrderEventAny::Denied(_) => if s == OrderStatus::Initialized {
            Some(OrderStatus::Denied)
        } else {
            None
        },
        OrderEventAny::Submitted(_) => if s == OrderStatus::Initialized {
            Some(OrderStatus::Submitted)
        } else {
            None
        },
        OrderEventAny::Rejected(_) => if s == OrderStatus::Submitted {
            Some(OrderStatus::Rejected)
        } else {
            None
        },
        OrderEventAny::Accepted(_) => if s == OrderStatus::Submitted {
            Some(OrderStatus::Accepted)
        } else {
            None
        },
        OrderEventAny::Canceled(_) => if is_working(s) {
            Some(OrderStatus::Canceled)
        } else {
            None
        },
        OrderEventAny::Expired(_) => if is_working(s) {
            Some(OrderStatus::Expired)
        } else {
            None
        },
        OrderEventAny::Triggered(_) => if s == OrderStatus::Accepted {
            Some(OrderStatus::Triggered)
        } else {
            None
        },
        OrderEventAny::PendingUpdate(_) => if s == OrderStatus::Accepted || s
            == OrderStatus::Triggered || s == OrderStatus::PartiallyFilled {
            Some(OrderStatus::PendingUpdate)
        } else {
            None
        },
        OrderEventAny::PendingCancel(_) => if s == OrderStatus::Accepted || s
            == OrderStatus::Triggered || s == OrderStatus::PartiallyFilled || s
            == OrderStatus::PendingUpdate {
            Some(OrderStatus::PendingCancel)
        } else {
            None
        },
        OrderEventAny::Updated(_) => if s == OrderStatus::Accepted || s == OrderStatus::Triggered
            || s == OrderStatus::PartiallyFilled {
            Some(s)
        } else if s == OrderStatus::PendingUpdate {
            Some(OrderStatus::Accepted)
        } else {
            None
        },
        OrderEventAny::Filled(_) => if is_working(s) {
            if full_fill {
                Some(OrderStatus::Filled)
            } else {
                Some(OrderStatus::PartiallyFilled)
            }
        } else {
            None
        },
    }
}

/// Whether a status closes the order.
pub open spec fn is_closing(s: OrderStatus) -> bool {
    ||| s == OrderStatus::Denied
    ||| s == OrderStatus::Rejected
    ||| s == OrderStatus::Canceled
    ||| s == OrderStatus::Expired
    ||| s == OrderStatus::Filled
}

/// State common to every order type.
pub struct OrderCore {
    pub events: Vec<OrderEventAny>,
    pub venue_order_ids: Vec<VenueOrderId>,
    pub trade_ids: Vec<TradeId>,
    pub previous_status: Option<OrderStatus>,
    pub status: OrderStatus,
    pub trader_id: TraderId,
    pub strategy_id: StrategyId,
    pub instrument_id: InstrumentId,
    pub client_order_id: ClientOrderId,
    pub venue_order_id: Option<VenueOrderId>,
    pub position_id: Option<PositionId>,
    pub account_id: Option<AccountId>,
    pub last_trade_id: Option<TradeId>,
    pub side: OrderSide,
    pub order_type: OrderType,
    pub quantity: Quantity,
    pub time_in_force: TimeInForce,
    pub is_reduce_only: bool,
    pub is_quote_quantity: bool,
    pub filled_qty: Quantity,
    pub leaves_qty: Quantity,
    pub filled_notional: u128,
    pub avg_px: Option<u64>,
    pub slippage: Option<i64>,
    pub init_id: Uuid4,
    pub ts_init: u64,
    pub ts_submitted: Option<u64>,
    pub ts_accepted: Option<u64>,
    pub ts_closed: Option<u64>,
    pub ts_last: u64,
}

impl OrderCore {
    /// Well-formedness: the fill bookkeeping is consistent. In particular,
    /// `filled_qty + leaves_qty == quantity` holds in every reachable state.
    pub open spec fn wf(self) -> bool {
        &&& self.filled_qty.raw + self.leaves_qty.raw == self.quantity.raw
        &&& self.filled_notional <= self.filled_qty.raw as u128 * MAX_PRICE_RAW as u128
        &&& (self.filled_qty.raw > 0 ==> self.avg_px == Some(
            (self.filled_notional / self.filled_qty.raw as u128) as u64,
        ))
        &&& (self.filled_qty.raw == 0 ==> self.avg_px is None && self.filled_notional == 0)
        &&& (self.avg_px matches Some(a) ==> a <= MAX_PRICE_RAW)
    }

    /// The status after applying `event` in the current state, or `None`
    /// where the event is illegal.
    pub open spec fn next_status_spec(self, event: OrderEventAny) -> Option<OrderStatus> {
        transition_spec(
            self.status,
            event,
            event matches OrderEventAny::Filled(f) && f.last_qty.raw == self.leaves_qty.raw,
        )
    }

    /// Builds the common state from the initialization event; the event
    /// itself becomes the first entry of the log.
    pub fn new(init: OrderInitialized) -> (r: Self)
        ensures
            r.wf(),
            r.status == OrderStatus::Initialized,
            r.previous_status is None,
            r.trader_id == init.trader_id,
            r.strategy_id == init.strategy_id,
            r.instrument_id == init.instrument_id,
            r.client_order_id == init.client_order_id,
            r.side == init.order_side,
            r.order_type == init.order_type,
            r.quantity == init.quantity,
            r.time_in_force == init.time_in_force,
            r.is_reduce_only == init.reduce_only,
            r.is_quote_quantity == init.quote_quantity,
            r.filled_qty.raw == 0,
            r.leaves_qty == init.quantity,
            r.avg_px is None,
            r.slippage is None,
            r.venue_order_id is None,
            r.position_id is None,
            r.account_id is None,
            r.last_trade_id is None,
            r.init_id == init.event_id,
            r.ts_init == init.ts_init,
            r.ts_last == init.ts_event,
            r.ts_submitted is None,
            r.ts_accepted is None,
            r.ts_closed is None,
            r.events@ == seq![OrderEventAny::Initialized(init)],
    {
        let trader_id = init.trader_id.clone();
        let strategy_id = init.strategy_id.clone();
        let instrument_id = init.instrument_id.clone();
        let client_order_id = init.client_order_id.clone();
        let side = init.order_side;
        let order_type = init.order_type;
        let quantity = init.quantity;
        let time_in_force = init.time_in_force;
        let is_reduce_only = init.reduce_only;
        let is_quote_quantity = init.quote_quantity;
        let init_id = init.event_id;
        let ts_init = init.ts_init;
        let ts_event = init.ts_event;
        let mut events: Vec<OrderEventAny> = Vec::new();
        events.push(OrderEventAny::Initialized(init));
        OrderCore {
            events,
            venue_order_ids: Vec::new(),
            trade_ids: Vec::new(),
            previous_status: None,
            status: OrderStatus::Initialized,
            trader_id,
            strategy_id,
            instrument_id,
            client_order_id,
            venue_order_id: None,
            position_id: None,
            account_id: None,
            last_trade_id: None,
            side,
            order_type,
            quantity,
            time_in_force,
            is_reduce_only,
            is_quote_quantity,
            filled_qty: Quantity { raw: 0 },
            leaves_qty: quantity,
            filled_notional: 0,
            avg_px: None,
            slippage: None,
            init_id,
            ts_init,
            ts_submitted: None,
            ts_accepted: None,
            ts_closed: None,
            ts_last: ts_event,
        }
    }

    /// The status after applying `event` now, or `None` where illegal.
    pub fn next_status(&self, event: &OrderEventAny) -> (r: Option<OrderStatus>)
        ensures
            r == self.next_status_spec(*event),
    {
        let full_fill = match event {
            OrderEventAny::Filled(f) => f.last_qty.raw == self.leaves_qty.raw,
            _ => false,
        };
        match event {
            OrderEventAny::Initialized(_) => None,
            OrderEventAny::Denied(_) => if self.status == OrderStatus::Initialized {
                Some(OrderStatus::Denied)
            } else {
                None
            },
            OrderEventAny::Submitted(_) => if self.status == OrderStatus::Initialized {
                Some(OrderStatus::Submitted)
            } else {
                None
            },
            OrderEventAny::Rejected(_) => if self.status == OrderStatus::Submitted {
                Some(OrderStatus::Rejected)
            } else {
                None
            },
            OrderEventAny::Accepted(_) => if self.status == OrderStatus::Submitted {
                Some(OrderStatus::Accepted)
            } else {
                None
            },
            OrderEventAny::Canceled(_) => if self.is_working() {
                Some(OrderStatus::Canceled)
            } else {
                None
            },
            OrderEventAny::Expired(_) => if self.is_working() {
                Some(OrderStatus::Expired)
            } else {
                None
            },
            OrderEventAny::Triggered(_) => if self.status == OrderStatus::Accepted {
                Some(OrderStatus::Triggered)
            } else {
                None
            },
            OrderEventAny::PendingUpdate(_) => if self.status == OrderStatus::Accepted
                || self.status == OrderStatus::Triggered || self.status
                == OrderStatus::PartiallyFilled {
                Some(OrderStatus::PendingUpdate)
            } else {
                None
            },
            OrderEventAny::PendingCancel(_) => if self.status == OrderStatus::Accepted
                || self.status == OrderStatus::Triggered || self.status
                == OrderStatus::PartiallyFilled || self.status == OrderStatus::PendingUpdate {
                Some(OrderStatus::PendingCancel)
            } else {
                None
            },
            OrderEventAny::Updated(_) => if self.status == OrderStatus::Accepted || self.status
                == OrderStatus::Triggered || self.status == OrderStatus::PartiallyFilled {
                Some(self.status)
            } else if self.status == OrderStatus::PendingUpdate {
                Some(OrderStatus::Accepted)
            } else {
                None
            },
            OrderEventAny::Filled(_) => if self.is_working() {
                if full_fill {
                    Some(OrderStatus::Filled)
                } else {
                    Some(OrderStatus::PartiallyFilled)
                }
            } else {
                None
            },
        }
    }

    fn is_working(&self) -> (r: bool)
        ensures
            r == is_working(self.status),
    {
        self.status == OrderStatus::Accepted || self.status == OrderStatus::Triggered
            || self.status == OrderStatus::PartiallyFilled || self.status
            == OrderStatus::PendingUpdate || self.status == OrderStatus::PendingCancel
    }

    /// Applies an event: checks the transition, updates the status and fill
    /// bookkeeping, and appends the event to the log. An illegal event is
    /// refused and leaves the order untouched.
    pub fn apply(&mut self, event: OrderEventAny) -> (r: Result<(), OrderError>)
        requires
            old(self).wf(),
            event matches OrderEventAny::Filled(f) ==> 0 < f.last_qty.raw <= old(
                self,
            ).leaves_qty.raw && 0 < f.last_px.raw <= MAX_PRICE_RAW,
        ensures
            final(self).wf(),
            match r {
                Ok(()) => {
                    &&& old(self).next_status_spec(event) == Some(final(self).status)
                    &&& final(self).events@ == old(self).events@.push(event)
                    &&& final(self).previous_status == Some(old(self).status)
                    &&& final(self).ts_last == event.ts_event_spec()
                    &&& final(self).quantity == old(self).quantity
                    &&& final(self).trader_id == old(self).trader_id
                    &&& final(self).strategy_id == old(self).strategy_id
                    &&& final(self).instrument_id == old(self).instrument_id
                    &&& final(self).client_order_id == old(self).client_order_id
                    &&& final(self).side == old(self).side
                    &&& final(self).order_type == old(self).order_type
                    &&& final(self).slippage == old(self).slippage
                    &&& (is_closing(final(self).status) ==> final(self).ts_closed == Some(
                        event.ts_event_spec(),
                    ))
                    &&& (!is_closing(final(self).status) ==> final(self).ts_closed == old(
                        self,
                    ).ts_closed)
                    &&& match event {
                        OrderEventAny::Filled(f) => {
                            &&& final(self).filled_qty.raw == old(self).filled_qty.raw
                                + f.last_qty.raw
                            &&& final(self).leaves_qty.raw == old(self).leaves_qty.raw
                                - f.last_qty.raw
                            &&& final(self).filled_notional == old(self).filled_notional
                                + f.last_px.raw * f.last_qty.raw
                            &&& final(self).last_trade_id == Some(f.trade_id)
                            &&& final(self).trade_ids@ == old(self).trade_ids@.push(f.trade_id)
                            &&& final(self).venue_order_id == Some(f.venue_order_id)
                        },
                        OrderEventAny::Accepted(a) => {
                            &&& final(self).venue_order_id == Some(a.venue_order_id)
                            &&& final(self).account_id == Some(a.account_id)
                            &&& final(self).ts_accepted == Some(a.ts_event)
                            &&& final(self).filled_qty == old(self).filled_qty
                            &&& final(self).leaves_qty == old(self).leaves_qty
                            &&& final(self).avg_px == old(self).avg_px
                        },
                        OrderEventAny::Submitted(s) => {
                            &&& final(self).ts_submitted == Some(s.ts_event)
                            &&& final(self).account_id == Some(s.account_id)
                            &&& final(self).filled_qty == old(self).filled_qty
                            &&& final(self).leaves_qty == old(self).leaves_qty
                            &&& final(self).avg_px == old(self).avg_px
                        },
                        _ => {
                            &&& final(self).filled_qty == old(self).filled_qty
                            &&& final(self).leaves_qty == old(self).leaves_qty
                            &&& final(self).avg_px == old(self).avg_px
                        },
                    }
                },
                Err(e) => {
                    &&& e == OrderError::InvalidStateTransition
                    &&& old(self).next_status_spec(event) is None
                    &&& *final(self) == *old(self)
                },
            },
    {
        let next = match self.next_status(&event) {
            Some(ns) => ns,
            None => {
                return Err(OrderError::InvalidStateTransition);
            },
        };
        match &event {
            OrderEventAny::Filled(f) => {
                let ghost old_notional = self.filled_notional as int;
                let ghost old_filled = self.filled_qty.raw as int;
                let ghost lq = f.last_qty.raw as int;
                let ghost lp = f.last_px.raw as int;
                let ghost m = MAX_PRICE_RAW as int;
                proof {
                    assert(old_notional + lp * lq <= (old_filled + lq) * m) by (nonlinear_arith)
                        requires
                            old_notional <= old_filled * m,
                            0 < lp <= m,
                            0 < lq,
                            0 <= old_filled,
                    ;
                    assert((old_filled + lq) * m < 0x1_0000_0000_0000_0000_0000_0000_0000_0000int)
                        by (nonlinear_arith)
                        requires
                            0 <= old_filled + lq < 0x1_0000_0000_0000_0000int,
                            0 < m < 0x8000_0000_0000_0000int,
                    ;
                }
                let new_filled: u64 = self.filled_qty.raw + f.last_qty.raw;
                let new_notional: u128 = self.filled_notional + (f.last_px.raw as u128) * (
                f.last_qty.raw as u128);
                let avg_wide: u128 = new_notional / (new_filled as u128);
                proof {
                    lemma_div_is_ordered(
                        new_notional as int,
                        (new_filled as int) * m,
                        new_filled as int,
                    );
                    lemma_div_by_multiple(m, new_filled as int);
                }
                let avg: u64 = avg_wide as u64;
                self.filled_qty = Quantity { raw: new_filled };
                self.leaves_qty = Quantity { raw: self.leaves_qty.raw - f.last_qty.raw };
                self.filled_notional = new_notional;
                self.avg_px = Some(avg);
                self.last_trade_id = Some(f.trade_id.clone());
                self.trade_ids.push(f.trade_id.clone());
                self.venue_order_id = Some(f.venue_order_id.clone());
                if let Some(pid) = &f.position_id {
                    self.position_id = Some(pid.clone());
                }
            },
            OrderEventAny::Accepted(a) => {
                self.venue_order_id = Some(a.venue_order_id.clone());
                self.account_id = Some(a.account_id.clone());
                self.ts_accepted = Some(a.ts_event);
                self.venue_order_ids.push(a.venue_order_id.clone());
            },
            OrderEventAny::Submitted(s) => {
                self.ts_submitted = Some(s.ts_event);
                self.account_id = Some(s.account_id.clone());
            },
            _ => {},
        }
        let ts = event.ts_event();
        self.previous_status = Some(self.status);
        self.status = next;
        self.ts_last = ts;
        if self.is_closing_status() {
            self.ts_closed = Some(ts);
        }
        self.events.push(event);
        Ok(())
    }

    fn is_closing_status(&self) -> (r: bool)
        ensures
            r == is_closing(self.status),
    {
        self.status == OrderStatus::Denied || self.status == OrderStatus::Rejected || self.status
            == OrderStatus::Canceled || self.status == OrderStatus::Expired || self.status
            == OrderStatus::Filled
    }

    /// Recomputes the slippage of the order against a reference price: how
    /// far the average fill price sits on the wrong side of it.
    pub fn set_slippage(&mut self, reference_price: Price)
        requires
            old(self).wf(),
            reference_price.raw <= MAX_PRICE_RAW,
        ensures
            final(self).wf(),
            *final(self) == (OrderCore { slippage: final(self).slippage, ..*old(self) }),
            match old(self).avg_px {
                Some(a) => final(self).slippage == Some(
                    (if old(self).side == OrderSide::Buy {
                        a as i64 - reference_price.raw as i64
                    } else {
                        reference_price.raw as i64 - a as i64
                    }) as i64,
                ),
                None => (final(self).slippage is None),
            },
    {
        match self.avg_px {
            Some(a) => {
                let diff: i64 = if self.side == OrderSide::Buy {
                    a as i64 - reference_price.raw as i64
                } else {
                    reference_price.raw as i64 - a as i64
                };
                self.slippage = Some(diff);
            },
            None => {
                self.slippage = None;
            },
        }
    }
}

/// A market-if-touched order: a market order armed once a trigger price is
/// touched.
pub struct MarketIfTouchedOrder {
    pub trigger_price: Price,
    pub trigger_type: TriggerType,
    pub expire_time: Option<u64>,
    pub display_qty: Option<Quantity>,
    pub trigger_instrument_id: Option<InstrumentId>,
    pub is_triggered: bool,
    pub ts_triggered: Option<u64>,
    pub core: OrderCore,
}

/// The construction rules for a market-if-touched order: positive quantity
/// and trigger price, a display quantity (when given) that is positive and
/// within the order quantity, and for GTD a non-zero expire time.
pub open spec fn mit_params_ok(
    quantity: Quantity,
    trigger_price: Price,
    time_in_force: TimeInForce,
    expire_time: Option<u64>,
    display_qty: Option<Quantity>,
) -> bool {
    &&& quantity.is_positive()
    &&& trigger_price.is_positive()
    &&& (display_qty matches Some(d) ==> d.is_positive() && d.raw <= quantity.raw)
    &&& (time_in_force == TimeInForce::Gtd ==> (expire_time matches Some(t) && t != 0))
}

impl MarketIfTouchedOrder {
    /// Well-formedness of the order.
    pub open spec fn wf(self) -> bool {
        &&& self.core.wf()
        &&& self.trigger_price.raw <= MAX_PRICE_RAW
    }

    /// Builds the order from its parameters, or says which rule they break:
    /// `Ok` exactly when `mit_params_ok` holds of them.
    pub fn new_checked(
        trader_id: TraderId,
        strategy_id: StrategyId,
        instrument_id: InstrumentId,
        client_order_id: ClientOrderId,
        order_side: OrderSide,
        quantity: Quantity,
        trigger_price: Price,
        trigger_type: TriggerType,
        time_in_force: TimeInForce,
        expire_time: Option<u64>,
        reduce_only: bool,
        quote_quantity: bool,
        display_qty: Option<Quantity>,
        emulation_trigger: Option<TriggerType>,
        trigger_instrument_id: Option<InstrumentId>,
        contingency_type: Option<ContingencyType>,
        order_list_id: Option<OrderListId>,
        linked_order_ids: Option<Vec<ClientOrderId>>,
        parent_order_id: Option<ClientOrderId>,
        exec_algorithm_id: Option<ExecAlgorithmId>,
        exec_spawn_id: Option<ClientOrderId>,
        tags: Option<Vec<String>>,
        init_id: Uuid4,
        ts_init: u64,
    ) -> (r: Result<Self, OrderError>)
        requires
            trigger_price.raw <= MAX_PRICE_RAW,
        ensures
            match r {
                Ok(o) => {
                    &&& mit_params_ok(
                        quantity,
                        trigger_price,
                        time_in_force,
                        expire_time,
                        display_qty,
                    )
                    &&& o.wf()
                    &&& o.core.status == OrderStatus::Initialized
                    &&& o.core.trader_id == trader_id
                    &&& o.core.strategy_id == strategy_id
                    &&& o.core.instrument_id == instrument_id
                    &&& o.core.client_order_id == client_order_id
                    &&& o.core.side == order_side
                    &&& o.core.order_type == OrderType::MarketIfTouched
                    &&& o.core.quantity == quantity
                    &&& o.core.time_in_force == time_in_force
                    &&& o.core.is_reduce_only == reduce_only
                    &&& o.core.is_quote_quantity == quote_quantity
                    &&& o.core.filled_qty.raw == 0
                    &&& o.core.leaves_qty == quantity
                    &&& (o.core.avg_px is None)
                    &&& (o.core.slippage is None)
                    &&& o.core.init_id == init_id
                    &&& o.core.ts_init == ts_init
                    &&& o.trigger_price == trigger_price
                    &&& o.trigger_type == trigger_type
                    &&& o.expire_time == expire_time
                    &&& o.display_qty == display_qty
                    &&& o.trigger_instrument_id == trigger_instrument_id
                    &&& !o.is_triggered
                    &&& (o.ts_triggered is None)
                    &&& o.core.events@.len() == 1
                    &&& (o.core.events@[0] matches OrderEventAny::Initialized(e) && e.trader_id
                        == trader_id && e.client_order_id == client_order_id && e.order_side
                        == order_side && e.order_type == OrderType::MarketIfTouched && e.quantity
                        == quantity && e.price is None && e.trigger_price == Some(trigger_price)
                        && e.trigger_type == Some(trigger_type) && e.time_in_force == time_in_force
                        && e.expire_time == expire_time && e.display_qty == display_qty
                        && e.linked_order_ids == linked_order_ids && e.tags == tags && e.event_id
                        == init_id && e.ts_event == ts_init && e.ts_init == ts_init)
                },
                Err(e) => {
                    &&& !mit_params_ok(
                        quantity,
                        trigger_price,
                        time_in_force,
                        expire_time,
                        display_qty,
                    )
                    &&& (!quantity.is_positive() ==> e == OrderError::InvalidQuantity)
                    &&& (quantity.is_positive() && !trigger_price.is_positive() ==> e
                        == OrderError::InvalidPrice)
                    &&& (quantity.is_positive() && trigger_price.is_positive() && !(
                    display_qty matches Some(d) ==> d.is_positive() && d.raw <= quantity.raw) ==> e
                        == OrderError::InvalidDisplayQty)
                    &&& (quantity.is_positive() && trigger_price.is_positive() && (
                    display_qty matches Some(d) ==> d.is_positive() && d.raw <= quantity.raw) ==> e
                        == OrderError::GtdWithoutExpireTime)
                },
            },
    {
        if quantity.raw == 0 {
            return Err(OrderError::InvalidQuantity);
        }
        if trigger_price.raw == 0 {
            return Err(OrderError::InvalidPrice);
        }
        if let Some(d) = display_qty {
            if d.raw == 0 || d.raw > quantity.raw {
                return Err(OrderError::InvalidDisplayQty);
            }
        }
        if time_in_force == TimeInForce::Gtd {
            let expire_ok = match expire_time {
                Some(t) => t != 0,
                None => false,
            };
            if !expire_ok {
                return Err(OrderError::GtdWithoutExpireTime);
            }
        }
        let trigger_instrument_id_copy = match &trigger_instrument_id {
            Some(iid) => Some(iid.clone()),
            None => None,
        };
        let init = OrderInitialized {
            trader_id,
            strategy_id,
            instrument_id,
            client_order_id,
            order_side,
            order_type: OrderType::MarketIfTouched,
            quantity,
            time_in_force,
            price: None,
            trigger_price: Some(trigger_price),
            trigger_type: Some(trigger_type),
            expire_time,
            display_qty,
            emulation_trigger,
            trigger_instrument_id,
            contingency_type,
            order_list_id,
            linked_order_ids,
            parent_order_id,
            exec_algorithm_id,
            exec_spawn_id,
            tags,
            reduce_only,
            quote_quantity,
            event_id: init_id,
            ts_event: ts_init,
            ts_init,
        };
        Ok(
            MarketIfTouchedOrder {
                trigger_price,
                trigger_type,
                expire_time,
                display_qty,
                trigger_instrument_id: trigger_instrument_id_copy,
                is_triggered: false,
                ts_triggered: None,
                core: OrderCore::new(init),
            },
        )
    }

    /// Builds the order; the parameters must already satisfy the
    /// construction rules.
    pub fn new(
        trader_id: TraderId,
        strategy_id: StrategyId,
        instrument_id: InstrumentId,
        client_order_id: ClientOrderId,
        order_side: OrderSide,
        quantity: Quantity,
        trigger_price: Price,
        trigger_type: TriggerType,
        time_in_force: TimeInForce,
        expire_time: Option<u64>,
        reduce_only: bool,
        quote_quantity: bool,
        display_qty: Option<Quantity>,
        emulation_trigger: Option<TriggerType>,
        trigger_instrument_id: Option<InstrumentId>,
        contingency_type: Option<ContingencyType>,
        order_list_id: Option<OrderListId>,
        linked_order_ids: Option<Vec<ClientOrderId>>,
        parent_order_id: Option<ClientOrderId>,
        exec_algorithm_id: Option<ExecAlgorithmId>,
        exec_spawn_id: Option<ClientOrderId>,
        tags: Option<Vec<String>>,
        init_id: Uuid4,
        ts_init: u64,
    ) -> (r: Self)
        requires
            trigger_price.raw <= MAX_PRICE_RAW,
            mit_params_ok(quantity, trigger_price, time_in_force, expire_time, display_qty),
        ensures
            r.wf(),
            r.core.status == OrderStatus::Initialized,
            r.core.trader_id == trader_id,
            r.core.strategy_id == strategy_id,
            r.core.instrument_id == instrument_id,
            r.core.client_order_id == client_order_id,
            r.core.side == order_side,
            r.core.order_type == OrderType::MarketIfTouched,
            r.core.quantity == quantity,
            r.core.time_in_force == time_in_force,
            r.core.filled_qty.raw == 0,
            r.core.leaves_qty == quantity,
            r.trigger_price == trigger_price,
            r.trigger_type == trigger_type,
            r.expire_time == expire_time,
            r.display_qty == display_qty,
            !r.is_triggered,
    {
        let r = Self::new_checked(
            trader_id,
            strategy_id,
            instrument_id,
            client_order_id,
            order_side,
            quantity,
            trigger_price,
            trigger_type,
            time_in_force,
            expire_time,
            reduce_only,
            quote_quantity,
            display_qty,
            emulation_trigger,
            trigger_instrument_id,
            contingency_type,
            order_list_id,
            linked_order_ids,
            parent_order_id,
            exec_algorithm_id,
            exec_spawn_id,
            tags,
            init_id,
            ts_init,
        );
        match r {
            Ok(o) => o,
            Err(_) => unreached(),
        }
    }

    /// Applies an event. On an `Updated` event the quantity and trigger
    /// price change in place; on a fill the slippage is recomputed against
    /// the trigger price. An event the status table refuses is returned as
    /// an error and leaves the order untouched.
    pub fn apply(&mut self, event: OrderEventAny) -> (r: Result<(), OrderError>)
        requires
            old(self).wf(),
            event matches OrderEventAny::Updated(u) ==> u.price is None && u.quantity.raw >= old(
                self,
            ).core.filled_qty.raw && u.quantity.is_positive() && (u.trigger_price matches Some(p)
                ==> p.raw <= MAX_PRICE_RAW),
            event matches OrderEventAny::Filled(f) ==> 0 < f.last_qty.raw <= old(
                self,
            ).core.leaves_qty.raw && 0 < f.last_px.raw <= MAX_PRICE_RAW,
        ensures
            final(self).wf(),
            match r {
                Ok(()) => {
                    &&& old(self).core.next_status_spec(event) == Some(final(self).core.status)
                    &&& final(self).core.events@ == old(self).core.events@.push(event)
                    &&& final(self).core.previous_status == Some(old(self).core.status)
                    &&& match event {
                        OrderEventAny::Updated(u) => {
                            &&& final(self).core.quantity == u.quantity
                            &&& final(self).core.filled_qty == old(self).core.filled_qty
                            &&& final(self).core.leaves_qty.raw == u.quantity.raw - old(
                                self,
                            ).core.filled_qty.raw
                            &&& final(self).trigger_price == (match u.trigger_price {
                                Some(p) => p,
                                None => old(self).trigger_price,
                            })
                            &&& final(self).core.slippage == old(self).core.slippage
                            &&& final(self).is_triggered == old(self).is_triggered
                        },
                        OrderEventAny::Filled(f) => {
                            &&& final(self).core.filled_qty.raw == old(self).core.filled_qty.raw
                                + f.last_qty.raw
                            &&& final(self).core.leaves_qty.raw == old(self).core.leaves_qty.raw
                                - f.last_qty.raw
                            &&& final(self).core.quantity == old(self).core.quantity
                            &&& final(self).trigger_price == old(self).trigger_price
                            &&& final(self).is_triggered == old(self).is_triggered
                            &&& match final(self).core.avg_px {
                                Some(a) => final(self).core.slippage == Some(
                                    (if old(self).core.side == OrderSide::Buy {
                                        a as i64 - old(self).trigger_price.raw as i64
                                    } else {
                                        old(self).trigger_price.raw as i64 - a as i64
                                    }) as i64,
                                ),
                                None => false,
                            }
                        },
                        OrderEventAny::Triggered(t) => {
                            &&& final(self).is_triggered
                            &&& final(self).ts_triggered == Some(t.ts_event)
                            &&& final(self).core.quantity == old(self).core.quantity
                            &&& final(self).core.filled_qty == old(self).core.filled_qty
                            &&& final(self).trigger_price == old(self).trigger_price
                            &&& final(self).core.slippage == old(self).core.slippage
                        },
                        _ => {
                            &&& final(self).core.quantity == old(self).core.quantity
                            &&& final(self).core.filled_qty == old(self).core.filled_qty
                            &&& final(self).trigger_price == old(self).trigger_price
                            &&& final(self).core.slippage == old(self).core.slippage
                            &&& final(self).is_triggered == old(self).is_triggered
                            &&& final(self).ts_triggered == old(self).ts_triggered
                        },
                    }
                },
                Err(e) => {
                    &&& e == OrderError::InvalidStateTransition
                    &&& (old(self).core.next_status_spec(event) is None)
                    &&& *final(self) == *old(self)
                },
            },
    {
        let update_stash: Option<(Quantity, Option<Price>)> = match &event {
            OrderEventAny::Updated(u) => Some((u.quantity, u.trigger_price)),
            _ => None,
        };
        let fill_stash: Option<u64> = match &event {
            OrderEventAny::Filled(_) => Some(0u64),
            _ => None,
        };
        let trigger_stash: Option<u64> = match &event {
            OrderEventAny::Triggered(t) => Some(t.ts_event),
            _ => None,
        };
        match self.core.apply(event) {
            Err(e) => Err(e),
            Ok(()) => {
                if let Some((q, tp)) = update_stash {
                    self.core.quantity = q;
                    self.core.leaves_qty = Quantity { raw: q.raw - self.core.filled_qty.raw };
                    if let Some(p) = tp {
                        self.trigger_price = p;
                    }
                }
                if let Some(ts) = trigger_stash {
                    self.is_triggered = true;
                    self.ts_triggered = Some(ts);
                }
                if fill_stash.is_some() {
                    self.core.set_slippage(self.trigger_price);
                }
                Ok(())
            },
        }
    }

    /// The current status.
    pub fn status(&self) -> (r: OrderStatus)
        ensures
            r == self.core.status,
    {
        self.core.status
    }

    /// The filled quantity.
    pub fn filled_qty(&self) -> (r: Quantity)
        ensures
            r == self.core.filled_qty,
    {
        self.core.filled_qty
    }

    /// The quantity still open.
    pub fn leaves_qty(&self) -> (r: Quantity)
        ensures
            r == self.core.leaves_qty,
    {
        self.core.leaves_qty
    }

    /// The total order quantity.
    pub fn quantity(&self) -> (r: Quantity)
        ensures
            r == self.core.quantity,
    {
        self.core.quantity
    }

    /// The average fill price, once anything has filled.
    pub fn avg_px(&self) -> (r: Option<u64>)
        ensures
            r == self.core.avg_px,
    {
        self.core.avg_px
    }

    /// The slippage against the trigger price, recomputed on each fill.
    pub fn slippage(&self) -> (r: Option<i64>)
        ensures
            r == self.core.slippage,
    {
        self.core.slippage
    }
}

/// Any order, by type.
pub enum OrderAny {
    MarketIfTouched(MarketIfTouchedOrder),
}

impl OrderAny {
    /// The instrument the order is for.
    pub open spec fn instrument_id_spec(&self) -> InstrumentId {
        match self {
            OrderAny::MarketIfTouched(o) => o.core.instrument_id,
        }
    }

    /// The client order identifier.
    pub open spec fn client_order_id_spec(&self) -> ClientOrderId {
        match self {
            OrderAny::MarketIfTouched(o) => o.core.client_order_id,
        }
    }

    /// The instrument the order is for.
    pub fn instrument_id(&self) -> (r: &InstrumentId)
        ensures
            r == (match self {
                OrderAny::MarketIfTouched(o) => &o.core.instrument_id,
            }),
    {
        match self {
            OrderAny::MarketIfTouched(o) => &o.core.instrument_id,
        }
    }

    /// The client order identifier.
    pub fn client_order_id(&self) -> (r: &ClientOrderId)
        ensures
            r == (match self {
                OrderAny::MarketIfTouched(o) => &o.core.client_order_id,
            }),
    {
        match self {
            OrderAny::MarketIfTouched(o) => &o.core.client_order_id,
        }
    }
}

} // verus!
