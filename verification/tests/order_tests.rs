use tradecore::clock::Clock;
use tradecore::enums::{LiquiditySide, OrderSide, OrderStatus, OrderType, TimeInForce, TriggerType};
use tradecore::events::{OrderAccepted, OrderEventAny, OrderFilled, OrderSubmitted};
use tradecore::execution::{BacktestExecutionClient, SubmitOrder, TradingCommand};
use tradecore::enums::OmsType;
use tradecore::ids::{
    AccountId, ClientId, ClientOrderId, InstrumentId, StrategyId, Symbol, TradeId, TraderId, Venue,
    VenueOrderId,
};
use tradecore::order::{MarketIfTouchedOrder, OrderError};
use tradecore::types::{Price, Quantity};
use tradecore::uuid4::Uuid4;

fn instrument() -> InstrumentId {
    InstrumentId::new(Symbol::new("AUDUSD".to_string()), Venue::new("SIM".to_string()))
}

#[allow(clippy::too_many_arguments)]
fn mit_order(
    quantity: u64,
    trigger: u64,
    tif: TimeInForce,
    expire_time: Option<u64>,
    display_qty: Option<Quantity>,
) -> Result<MarketIfTouchedOrder, OrderError> {
    MarketIfTouchedOrder::new_checked(
        TraderId::new("TRADER-001".to_string()),
        StrategyId::new("S-001".to_string()),
        instrument(),
        ClientOrderId::new("O-19700101-000000-001-001-1".to_string()),
        OrderSide::Buy,
        Quantity::new(quantity),
        Price::new(trigger),
        TriggerType::LastPrice,
        tif,
        expire_time,
        false,
        false,
        display_qty,
        None,
        None,
        None,
        None,
        None,
        None,
        None,
        None,
        None,
        Uuid4::new(1),
        0,
    )
}

#[test]
fn mit_order_ok() {
    let order = mit_order(1, 30000, TimeInForce::Gtc, None, None).unwrap();
    assert_eq!(order.status(), OrderStatus::Initialized);
    assert_eq!(order.core.order_type, OrderType::MarketIfTouched);
    assert_eq!(order.quantity().raw, 1);
    assert_eq!(order.filled_qty().raw, 0);
    assert_eq!(order.leaves_qty().raw, 1);
    assert_eq!(order.trigger_price.raw, 30000);
    assert!(!order.is_triggered);
    assert_eq!(order.core.events.len(), 1);
}

#[test]
fn mit_order_quantity_zero_fails() {
    let r = mit_order(0, 30000, TimeInForce::Gtc, None, None);
    assert_eq!(r.err(), Some(OrderError::InvalidQuantity));
}

#[test]
fn mit_order_trigger_price_zero_fails() {
    let r = mit_order(1, 0, TimeInForce::Gtc, None, None);
    assert_eq!(r.err(), Some(OrderError::InvalidPrice));
}

#[test]
fn mit_order_gtd_without_expire_fails() {
    let r = mit_order(1, 30000, TimeInForce::Gtd, None, None);
    assert_eq!(r.err(), Some(OrderError::GtdWithoutExpireTime));
    let r = mit_order(1, 30000, TimeInForce::Gtd, Some(0), None);
    assert_eq!(r.err(), Some(OrderError::GtdWithoutExpireTime));
}

#[test]
fn mit_order_gtd_with_future_expire_succeeds() {
    let order = mit_order(1, 30000, TimeInForce::Gtd, Some(1_000_000_000), None).unwrap();
    assert_eq!(order.expire_time, Some(1_000_000_000));
    assert_eq!(order.core.time_in_force, TimeInForce::Gtd);
}

#[test]
fn mit_order_display_qty_gt_quantity_fails() {
    let r = mit_order(1, 30000, TimeInForce::Gtc, None, Some(Quantity::new(2)));
    assert_eq!(r.err(), Some(OrderError::InvalidDisplayQty));
    let r = mit_order(1, 30000, TimeInForce::Gtc, None, Some(Quantity::new(0)));
    assert_eq!(r.err(), Some(OrderError::InvalidDisplayQty));
}

fn submitted_event() -> OrderEventAny {
    OrderEventAny::Submitted(OrderSubmitted {
        trader_id: TraderId::new("TRADER-001".to_string()),
        strategy_id: StrategyId::new("S-001".to_string()),
        instrument_id: instrument(),
        client_order_id: ClientOrderId::new("O-1".to_string()),
        account_id: AccountId::new("SIM-001".to_string()),
        event_id: Uuid4::new(2),
        ts_event: 10,
    })
}

fn accepted_event() -> OrderEventAny {
    OrderEventAny::Accepted(OrderAccepted {
        venue_order_id: VenueOrderId::new("V-1".to_string()),
        account_id: AccountId::new("SIM-001".to_string()),
        event_id: Uuid4::new(3),
        ts_event: 20,
    })
}

fn fill_event(qty: u64, px: u64, ts: u64, trade: &str) -> OrderEventAny {
    OrderEventAny::Filled(OrderFilled {
        trade_id: TradeId::new(trade.to_string()),
        venue_order_id: VenueOrderId::new("V-1".to_string()),
        account_id: AccountId::new("SIM-001".to_string()),
        position_id: None,
        last_qty: Quantity::new(qty),
        last_px: Price::new(px),
        liquidity_side: LiquiditySide::Taker,
        event_id: Uuid4::new(4),
        ts_event: ts,
    })
}

#[test]
fn fill_bookkeeping_keeps_quantity_identity() {
    let mut order = mit_order(10, 30000, TimeInForce::Gtc, None, None).unwrap();
    order.apply(submitted_event()).unwrap();
    assert_eq!(order.status(), OrderStatus::Submitted);
    assert_eq!(order.filled_qty().raw + order.leaves_qty().raw, order.quantity().raw);

    order.apply(accepted_event()).unwrap();
    assert_eq!(order.status(), OrderStatus::Accepted);
    assert_eq!(order.filled_qty().raw + order.leaves_qty().raw, order.quantity().raw);

    order.apply(fill_event(4, 30010, 30, "T-1")).unwrap();
    assert_eq!(order.status(), OrderStatus::PartiallyFilled);
    assert_eq!(order.filled_qty().raw, 4);
    assert_eq!(order.leaves_qty().raw, 6);
    assert_eq!(order.filled_qty().raw + order.leaves_qty().raw, order.quantity().raw);

    order.apply(fill_event(6, 30020, 40, "T-2")).unwrap();
    assert_eq!(order.status(), OrderStatus::Filled);
    assert_eq!(order.filled_qty().raw, 10);
    assert_eq!(order.leaves_qty().raw, 0);
    assert_eq!(order.filled_qty().raw + order.leaves_qty().raw, order.quantity().raw);
}

#[test]
fn avg_px_is_quantity_weighted() {
    let mut order = mit_order(10, 30000, TimeInForce::Gtc, None, None).unwrap();
    order.apply(submitted_event()).unwrap();
    order.apply(accepted_event()).unwrap();
    order.apply(fill_event(4, 30010, 30, "T-1")).unwrap();
    assert_eq!(order.avg_px(), Some(30010));
    order.apply(fill_event(6, 30020, 40, "T-2")).unwrap();
    // (4 * 30010 + 6 * 30020) / 10 = 30016
    assert_eq!(order.avg_px(), Some(30016));
}

#[test]
fn slippage_is_recomputed_against_trigger_price() {
    let mut order = mit_order(2, 30000, TimeInForce::Gtc, None, None).unwrap();
    order.apply(submitted_event()).unwrap();
    order.apply(accepted_event()).unwrap();
    assert_eq!(order.slippage(), None);
    order.apply(fill_event(2, 30050, 30, "T-1")).unwrap();
    // A buy that filled 50 above the trigger slipped by +50.
    assert_eq!(order.slippage(), Some(50));
}

#[test]
fn illegal_event_is_refused_and_changes_nothing() {
    let mut order = mit_order(1, 30000, TimeInForce::Gtc, None, None).unwrap();
    let r = order.apply(fill_event(1, 30000, 5, "T-0"));
    assert_eq!(r.err(), Some(OrderError::InvalidStateTransition));
    assert_eq!(order.status(), OrderStatus::Initialized);
    assert_eq!(order.core.events.len(), 1);

    order.apply(submitted_event()).unwrap();
    let r = order.apply(submitted_event());
    assert_eq!(r.err(), Some(OrderError::InvalidStateTransition));
    assert_eq!(order.status(), OrderStatus::Submitted);
}

#[test]
fn backtest_submit_accept_fill_end_to_end() {
    // Submit a market-if-touched order (quantity 1, trigger 30000) through
    // the backtest execution client: an OrderSubmitted event comes back at
    // once, the command lands in the exchange queue, and after simulated
    // matching the fill's slippage is computed against 30000.
    let clock = Clock::new(1_000);
    let client = BacktestExecutionClient::new(
        TraderId::new("TRADER-001".to_string()),
        AccountId::new("SIM-001".to_string()),
        ClientId::new("SIM".to_string()),
        Venue::new("SIM".to_string()),
        OmsType::Netting,
        None,
        None,
    );
    let mut order = mit_order(1, 30000, TimeInForce::Gtc, None, None).unwrap();
    let cmd = SubmitOrder {
        trader_id: TraderId::new("TRADER-001".to_string()),
        client_id: ClientId::new("SIM".to_string()),
        strategy_id: StrategyId::new("S-001".to_string()),
        instrument_id: instrument(),
        client_order_id: ClientOrderId::new("O-19700101-000000-001-001-1".to_string()),
        order: tradecore::order::OrderAny::MarketIfTouched(
            mit_order(1, 30000, TimeInForce::Gtc, None, None).unwrap(),
        ),
        position_id: None,
        command_id: Uuid4::new(9),
        ts_init: 1_000,
    };
    let mut exchange: Vec<TradingCommand> = Vec::new();
    let submitted = client.submit_order(cmd, &clock, &mut exchange);
    assert_eq!(submitted.ts_event, 1_000);
    assert_eq!(submitted.account_id.as_str(), "SIM-001");
    assert_eq!(exchange.len(), 1);
    assert!(matches!(exchange[0], TradingCommand::SubmitOrder(_)));

    // The local order log replays the same sequence the venue produces.
    order
        .apply(OrderEventAny::Submitted(OrderSubmitted {
            trader_id: TraderId::new("TRADER-001".to_string()),
            strategy_id: StrategyId::new("S-001".to_string()),
            instrument_id: instrument(),
            client_order_id: ClientOrderId::new("O-19700101-000000-001-001-1".to_string()),
            account_id: submitted.account_id,
            event_id: submitted.event_id,
            ts_event: submitted.ts_event,
        }))
        .unwrap();
    order.apply(accepted_event()).unwrap();
    assert_eq!(order.status(), OrderStatus::Accepted);
    order.apply(fill_event(1, 30025, 2_000, "T-1")).unwrap();
    assert_eq!(order.status(), OrderStatus::Filled);
    assert_eq!(order.avg_px(), Some(30025));
    assert_eq!(order.slippage(), Some(25));
}

#[test]
fn connection_flag_does_not_gate_forwarding() {
    let clock = Clock::new(0);
    let mut client = BacktestExecutionClient::new(
        TraderId::new("TRADER-001".to_string()),
        AccountId::new("SIM-001".to_string()),
        ClientId::new("SIM".to_string()),
        Venue::new("SIM".to_string()),
        OmsType::Netting,
        None,
        None,
    );
    assert!(!client.is_connected());
    client.start();
    assert!(client.is_connected());
    client.stop();
    assert!(!client.is_connected());

    // Forwarding continues even when flagged disconnected: the flag is
    // informational only.
    let cmd = SubmitOrder {
        trader_id: TraderId::new("TRADER-001".to_string()),
        client_id: ClientId::new("SIM".to_string()),
        strategy_id: StrategyId::new("S-001".to_string()),
        instrument_id: instrument(),
        client_order_id: ClientOrderId::new("O-2".to_string()),
        order: tradecore::order::OrderAny::MarketIfTouched(
            mit_order(1, 30000, TimeInForce::Gtc, None, None).unwrap(),
        ),
        position_id: None,
        command_id: Uuid4::new(10),
        ts_init: 0,
    };
    let mut exchange: Vec<TradingCommand> = Vec::new();
    client.submit_order(cmd, &clock, &mut exchange);
    assert_eq!(exchange.len(), 1);
}
