use tradecore::enums::{LiquiditySide, OrderSide, PositionSide};
use tradecore::events::OrderFilled;
use tradecore::ids::{
    AccountId, ClientOrderId, InstrumentId, PositionId, StrategyId, Symbol, TradeId, TraderId,
    Venue, VenueOrderId,
};
use tradecore::position::{Position, PositionOpened};
use tradecore::types::{Price, Quantity};
use tradecore::uuid4::Uuid4;

#[test]
fn position_opened_copies_snapshot_and_fill() {
    let position = Position {
        trader_id: TraderId::new("TRADER-001".to_string()),
        strategy_id: StrategyId::new("S-001".to_string()),
        instrument_id: InstrumentId::new(
            Symbol::new("AUDUSD".to_string()),
            Venue::new("SIM".to_string()),
        ),
        id: PositionId::new("P-1".to_string()),
        account_id: AccountId::new("SIM-001".to_string()),
        opening_order_id: ClientOrderId::new("O-1".to_string()),
        entry: OrderSide::Buy,
        side: PositionSide::Long,
        signed_qty: 100,
        quantity: Quantity::new(100),
        quote_currency: "USD".to_string(),
        avg_px_open: 30000,
    };
    let fill = OrderFilled {
        trade_id: TradeId::new("T-1".to_string()),
        venue_order_id: VenueOrderId::new("V-1".to_string()),
        account_id: AccountId::new("SIM-001".to_string()),
        position_id: Some(PositionId::new("P-1".to_string())),
        last_qty: Quantity::new(100),
        last_px: Price::new(30000),
        liquidity_side: LiquiditySide::Taker,
        event_id: Uuid4::new(11),
        ts_event: 500,
    };
    let event = PositionOpened::create(&position, &fill, Uuid4::new(12), 600);
    assert_eq!(event.trader_id.as_str(), "TRADER-001");
    assert_eq!(event.position_id.as_str(), "P-1");
    assert_eq!(event.opening_order_id.as_str(), "O-1");
    assert_eq!(event.entry, OrderSide::Buy);
    assert_eq!(event.side, PositionSide::Long);
    assert_eq!(event.signed_qty, 100);
    assert_eq!(event.quantity, Quantity::new(100));
    assert_eq!(event.last_qty, Quantity::new(100));
    assert_eq!(event.last_px, Price::new(30000));
    assert_eq!(event.currency, "USD");
    assert_eq!(event.avg_px_open, 30000);
    assert_eq!(event.event_id, Uuid4::new(12));
    assert_eq!(event.ts_event, 500);
    assert_eq!(event.ts_init, 600);
}
