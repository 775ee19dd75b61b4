//! The trading commands a venue (real or simulated) accepts, and the
//! backtest execution client that routes them into a simulated exchange.

use vstd::prelude::*;
use crate::clock::Clock;
use crate::enums::{OmsType, OrderSide};
use crate::events::OrderSubmitted;
use crate::ids::{
    AccountId, ClientId, ClientOrderId, InstrumentId, PositionId, StrategyId, TraderId, Venue,
    VenueOrderId,
};
use crate::order::OrderAny;
use crate::types::{Price, Quantity};
use crate::uuid4::Uuid4;

verus! {

/// A command to submit one order.
pub struct SubmitOrder {
    pub trader_id: TraderId,
    pub client_id: ClientId,
    pub strategy_id: StrategyId,
    pub instrument_id: InstrumentId,
    pub client_order_id: ClientOrderId,
    pub order: OrderAny,
    pub position_id: Option<PositionId>,
    pub command_id: Uuid4,
    pub ts_init: u64,
}

/// A command to submit a list of orders atomically.
pub struct SubmitOrderList {
    pub trader_id: TraderId,
    pub client_id: ClientId,
    pub strategy_id: StrategyId,
    pub instrument_id: InstrumentId,
    pub order_list: Vec<OrderAny>,
    pub command_id: Uuid4,
    pub ts_init: u64,
}

/// A command to modify a working order.
pub struct ModifyOrder {
    pub trader_id: TraderId,
    pub client_id: ClientId,
    pub strategy_id: StrategyId,
    pub instrument_id: InstrumentId,
    pub client_order_id: ClientOrderId,
    pub venue_order_id: Option<VenueOrderId>,
    pub quantity: Option<Quantity>,
    pub price: Option<Price>,
    pub trigger_price: Option<Price>,
    pub command_id: Uuid4,
    pub ts_init: u64,
}

/// A command to cancel one order.
pub struct CancelOrder {
    pub trader_id: TraderId,
    pub client_id: ClientId,
    pub strategy_id: StrategyId,
    pub instrument_id: InstrumentId,
    pub client_order_id: ClientOrderId,
    pub venue_order_id: Option<VenueOrderId>,
    pub command_id: Uuid4,
    pub ts_init: u64,
}

impl Clone for CancelOrder {
    fn clone(&self) -> (r: Self)
        ensures
            r == *self,
    {
        CancelOrder {
            trader_id: self.trader_id.clone(),
            client_id: self.client_id.clone(),
            strategy_id: self.strategy_id.clone(),
            instrument_id: self.instrument_id.clone(),
            client_order_id: self.client_order_id.clone(),
            venue_order_id: match &self.venue_order_id {
                Some(v) => Some(v.clone()),
                None => None,
            },
            command_id: self.command_id,
            ts_init: self.ts_init,
        }
    }
}

/// A command to cancel every working order for an instrument.
pub struct CancelAllOrders {
    pub trader_id: TraderId,
    pub client_id: ClientId,
    pub strategy_id: StrategyId,
    pub instrument_id: InstrumentId,
    pub order_side: OrderSide,
    pub command_id: Uuid4,
    pub ts_init: u64,
}

/// A command to cancel a batch of orders in one venue round trip.
pub struct BatchCancelOrders {
    pub trader_id: TraderId,
    pub client_id: ClientId,
    pub strategy_id: StrategyId,
    pub instrument_id: InstrumentId,
    pub cancels: Vec<CancelOrder>,
    pub command_id: Uuid4,
    pub ts_init: u64,
}

impl BatchCancelOrders {
    /// Builds the command.
    pub fn new(
        trader_id: TraderId,
        client_id: ClientId,
        strategy_id: StrategyId,
        instrument_id: InstrumentId,
        cancels: Vec<CancelOrder>,
        command_id: Uuid4,
        ts_init: u64,
    ) -> (r: Self)
        ensures
            r.trader_id == trader_id,
            r.client_id == client_id,
            r.strategy_id == strategy_id,
            r.instrument_id == instrument_id,
            r.cancels == cancels,
            r.command_id == command_id,
            r.ts_init == ts_init,
    {
        BatchCancelOrders {
            trader_id,
            client_id,
            strategy_id,
            instrument_id,
            cancels,
            command_id,
            ts_init,
        }
    }
}

/// A command asking the venue for an order's current state.
pub struct QueryOrder {
    pub trader_id: TraderId,
    pub client_id: ClientId,
    pub strategy_id: StrategyId,
    pub instrument_id: InstrumentId,
    pub client_order_id: ClientOrderId,
    pub venue_order_id: Option<VenueOrderId>,
    pub command_id: Uuid4,
    pub ts_init: u64,
}

/// Any trading command a venue accepts.
pub enum TradingCommand {
    SubmitOrder(SubmitOrder),
    SubmitOrderList(SubmitOrderList),
    ModifyOrder(ModifyOrder),
    CancelOrder(CancelOrder),
    CancelAllOrders(CancelAllOrders),
    BatchCancelOrders(BatchCancelOrders),
    QueryOrder(QueryOrder),
}

/// The execution client used in backtests: it acknowledges submissions
/// locally with an `OrderSubmitted` event at the simulated clock's time,
/// then routes every command into the simulated exchange's inbound queue.
///
/// The connection flag is informational only: commands are forwarded whether
/// or not the client is flagged connected, and every contract here holds
/// regardless of the flag. A frozen account suppresses automatic account
/// calculation; no balance is ever derived from fills for such a client.
pub struct BacktestExecutionClient {
    pub trader_id: TraderId,
    pub client_id: ClientId,
    pub venue: Venue,
    pub oms_type: OmsType,
    pub account_id: AccountId,
    pub is_connected: bool,
    pub routing: bool,
    pub frozen_account: bool,
}

impl BacktestExecutionClient {
    /// Builds the client for a simulated exchange; it starts disconnected,
    /// and routing and account freezing default to off.
    pub fn new(
        trader_id: TraderId,
        account_id: AccountId,
        client_id: ClientId,
        venue: Venue,
        oms_type: OmsType,
        routing: Option<bool>,
        frozen_account: Option<bool>,
    ) -> (r: Self)
        ensures
            r.trader_id == trader_id,
            r.account_id == account_id,
            r.client_id == client_id,
            r.venue == venue,
            r.oms_type == oms_type,
            !r.is_connected,
            r.routing == (match routing {
                Some(b) => b,
                None => false,
            }),
            r.frozen_account == (match frozen_account {
                Some(b) => b,
                None => false,
            }),
    {
        let routing = match routing {
            Some(b) => b,
            None => false,
        };
        let frozen_account = match frozen_account {
            Some(b) => b,
            None => false,
        };
        BacktestExecutionClient {
            trader_id,
            client_id,
            venue,
            oms_type,
            account_id,
            is_connected: false,
            routing,
            frozen_account,
        }
    }

    /// Whether the client is flagged connected.
    pub fn is_connected(&self) -> (r: bool)
        ensures
            r == self.is_connected,
    {
        self.is_connected
    }

    /// The client identifier.
    pub fn client_id(&self) -> (r: &ClientId)
        ensures
            r == &self.client_id,
    {
        &self.client_id
    }

    /// The account the client trades under.
    pub fn account_id(&self) -> (r: &AccountId)
        ensures
            r == &self.account_id,
    {
        &self.account_id
    }

    /// The venue the client routes to.
    pub fn venue(&self) -> (r: &Venue)
        ensures
            r == &self.venue,
    {
        &self.venue
    }

    /// The order-management mode of the venue.
    pub fn oms_type(&self) -> (r: OmsType)
        ensures
            r == self.oms_type,
    {
        self.oms_type
    }

    /// Flags the client connected; nothing else changes.
    pub fn start(&mut self)
        ensures
            final(self).is_connected,
            *final(self) == (BacktestExecutionClient { is_connected: true, ..*old(self) }),
    {
        self.is_connected = true;
    }

    /// Flags the client disconnected; nothing else changes, and commands
    /// keep flowing.
    pub fn stop(&mut self)
        ensures
            !final(self).is_connected,
            *final(self) == (BacktestExecutionClient { is_connected: false, ..*old(self) }),
    {
        self.is_connected = false;
    }

    /// Submits an order: the client immediately acknowledges it with an
    /// `OrderSubmitted` event at the current simulated time, then forwards
    /// the command — unchanged — into the exchange's inbound queue.
    pub fn submit_order(&self, cmd: SubmitOrder, clock: &Clock, exchange: &mut Vec<
        TradingCommand,
    >) -> (ev: OrderSubmitted)
        ensures
            ev.trader_id == cmd.trader_id,
            ev.strategy_id == cmd.strategy_id,
            ev.instrument_id == cmd.instrument_id,
            ev.client_order_id == cmd.client_order_id,
            ev.account_id == self.account_id,
            ev.ts_event == clock.time_ns(),
            final(exchange)@.len() == old(exchange)@.len() + 1,
            final(exchange)@.subrange(0, old(exchange)@.len() as int) == old(exchange)@,
            (final(exchange)@.last() matches TradingCommand::SubmitOrder(c) && c == cmd),
    {
        let ev = OrderSubmitted {
            trader_id: cmd.trader_id.clone(),
            strategy_id: cmd.strategy_id.clone(),
            instrument_id: cmd.instrument_id.clone(),
            client_order_id: cmd.client_order_id.clone(),
            account_id: self.account_id.clone(),
            event_id: Uuid4::generate(),
            ts_event: clock.timestamp_ns(),
        };
        exchange.push(TradingCommand::SubmitOrder(cmd));
        proof {
            assert(final(exchange)@.subrange(0, old(exchange)@.len() as int) =~= old(exchange)@);
        }
        ev
    }

    /// Submits an order list: one `OrderSubmitted` event per child order,
    /// in list order, before the whole command is forwarded.
    #[verifier::loop_isolation(false)]
    pub fn submit_order_list(&self, cmd: SubmitOrderList, clock: &Clock, exchange: &mut Vec<
        TradingCommand,
    >) -> (evs: Vec<OrderSubmitted>)
        ensures
            evs@.len() == cmd.order_list@.len(),
            forall|i: int|
                0 <= i < evs@.len() ==> {
                    let ev = #[trigger] evs@[i];
                    &&& ev.trader_id == cmd.trader_id
                    &&& ev.strategy_id == cmd.strategy_id
                    &&& ev.instrument_id == cmd.order_list@[i].instrument_id_spec()
                    &&& ev.client_order_id == cmd.order_list@[i].client_order_id_spec()
                    &&& ev.account_id == self.account_id
                    &&& ev.ts_event == clock.time_ns()
                },
            final(exchange)@.len() == old(exchange)@.len() + 1,
            final(exchange)@.subrange(0, old(exchange)@.len() as int) == old(exchange)@,
            (final(exchange)@.last() matches TradingCommand::SubmitOrderList(c) && c == cmd),
    {
        let mut evs: Vec<OrderSubmitted> = Vec::new();
        let n = cmd.order_list.len();
        let mut i: usize = 0;
        while i < n
            invariant
                n == cmd.order_list@.len(),
                i <= n,
                evs@.len() == i,
                forall|j: int|
                    0 <= j < i ==> {
                        let ev = #[trigger] evs@[j];
                        &&& ev.trader_id == cmd.trader_id
                        &&& ev.strategy_id == cmd.strategy_id
                        &&& ev.instrument_id == cmd.order_list@[j].instrument_id_spec()
                        &&& ev.client_order_id == cmd.order_list@[j].client_order_id_spec()
                        &&& ev.account_id == self.account_id
                        &&& ev.ts_event == clock.time_ns()
                    },
            decreases n - i,
        {
            let order = &cmd.order_list[i];
            let ev = OrderSubmitted {
                trader_id: cmd.trader_id.clone(),
                strategy_id: cmd.strategy_id.clone(),
                instrument_id: order.instrument_id().clone(),
                client_order_id: order.client_order_id().clone(),
                account_id: self.account_id.clone(),
                event_id: Uuid4::generate(),
                ts_event: clock.timestamp_ns(),
            };
            evs.push(ev);
            i += 1;
        }
        exchange.push(TradingCommand::SubmitOrderList(cmd));
        proof {
            assert(final(exchange)@.subrange(0, old(exchange)@.len() as int) =~= old(exchange)@);
        }
        evs
    }

    /// Forwards a modify command verbatim: no local pre-acknowledgement,
    /// the venue must confirm.
    pub fn modify_order(&self, cmd: ModifyOrder, exchange: &mut Vec<TradingCommand>)
        ensures
            final(exchange)@.len() == old(exchange)@.len() + 1,
            final(exchange)@.subrange(0, old(exchange)@.len() as int) == old(exchange)@,
            (final(exchange)@.last() matches TradingCommand::ModifyOrder(c) && c == cmd),
    {
        exchange.push(TradingCommand::ModifyOrder(cmd));
        proof {
            assert(final(exchange)@.subrange(0, old(exchange)@.len() as int) =~= old(exchange)@);
        }
    }

    /// Forwards a cancel command verbatim.
    pub fn cancel_order(&self, cmd: CancelOrder, exchange: &mut Vec<TradingCommand>)
        ensures
            final(exchange)@.len() == old(exchange)@.len() + 1,
            final(exchange)@.subrange(0, old(exchange)@.len() as int) == old(exchange)@,
            (final(exchange)@.last() matches TradingCommand::CancelOrder(c) && c == cmd),
    {
        exchange.push(TradingCommand::CancelOrder(cmd));
        proof {
            assert(final(exchange)@.subrange(0, old(exchange)@.len() as int) =~= old(exchange)@);
        }
    }

    /// Forwards a cancel-all command verbatim.
    pub fn cancel_all_orders(&self, cmd: CancelAllOrders, exchange: &mut Vec<TradingCommand>)
        ensures
            final(exchange)@.len() == old(exchange)@.len() + 1,
            final(exchange)@.subrange(0, old(exchange)@.len() as int) == old(exchange)@,
            (final(exchange)@.last() matches TradingCommand::CancelAllOrders(c) && c == cmd),
    {
        exchange.push(TradingCommand::CancelAllOrders(cmd));
        proof {
            assert(final(exchange)@.subrange(0, old(exchange)@.len() as int) =~= old(exchange)@);
        }
    }

    /// Forwards a batch-cancel command verbatim.
    pub fn batch_cancel_orders(&self, cmd: BatchCancelOrders, exchange: &mut Vec<TradingCommand>)
        ensures
            final(exchange)@.len() == old(exchange)@.len() + 1,
            final(exchange)@.subrange(0, old(exchange)@.len() as int) == old(exchange)@,
            (final(exchange)@.last() matches TradingCommand::BatchCancelOrders(c) && c == cmd),
    {
        exchange.push(TradingCommand::BatchCancelOrders(cmd));
        proof {
            assert(final(exchange)@.subrange(0, old(exchange)@.len() as int) =~= old(exchange)@);
        }
    }

    /// Forwards a query command verbatim.
    pub fn query_order(&self, cmd: QueryOrder, exchange: &mut Vec<TradingCommand>)
        ensures
            final(exchange)@.len() == old(exchange)@.len() + 1,
            final(exchange)@.subrange(0, old(exchange)@.len() as int) == old(exchange)@,
            (final(exchange)@.last() matches TradingCommand::QueryOrder(c) && c == cmd),
    {
        exchange.push(TradingCommand::QueryOrder(cmd));
        proof {
            assert(final(exchange)@.subrange(0, old(exchange)@.len() as int) =~= old(exchange)@);
        }
    }
}

} // verus!
