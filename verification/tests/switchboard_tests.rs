use tradecore::chain::Blockchain;
use tradecore::ids::{
    BarType, ClientOrderId, DataType, InstrumentId, PositionId, StrategyId, Symbol, Venue,
};
use tradecore::switchboard::MessagingSwitchboard;

fn instrument_id() -> InstrumentId {
    InstrumentId::new(Symbol::new("ESZ24".to_string()), Venue::new("XCME".to_string()))
}

#[test]
fn custom_topic() {
    let mut switchboard = MessagingSwitchboard::default();
    let data_type = DataType::new("ExampleDataType".to_string());
    let result = switchboard.get_custom_topic(data_type);
    assert_eq!(result.as_str(), "data.ExampleDataType");
    assert_eq!(switchboard.custom_topics.len(), 1);
}

#[test]
fn instruments_topic() {
    let mut switchboard = MessagingSwitchboard::default();
    let result = switchboard.get_instruments_topic(Venue::new("XCME".to_string()));
    assert_eq!(result.as_str(), "data.instrument.XCME");
}

#[test]
fn instrument_topic() {
    let mut switchboard = MessagingSwitchboard::default();
    let result = switchboard.get_instrument_topic(instrument_id());
    assert_eq!(result.as_str(), "data.instrument.XCME.ESZ24");
}

#[test]
fn book_deltas_topic() {
    let mut switchboard = MessagingSwitchboard::default();
    let result = switchboard.get_book_deltas_topic(instrument_id());
    assert_eq!(result.as_str(), "data.book.deltas.XCME.ESZ24");
}

#[test]
fn book_depth10_topic() {
    let mut switchboard = MessagingSwitchboard::default();
    let result = switchboard.get_book_depth10_topic(instrument_id());
    assert_eq!(result.as_str(), "data.book.depth10.XCME.ESZ24");
}

#[test]
fn book_snapshots_topic() {
    let mut switchboard = MessagingSwitchboard::default();
    let result = switchboard.get_book_snapshots_topic(instrument_id());
    assert_eq!(result.as_str(), "data.book.snapshots.XCME.ESZ24");
}

#[test]
fn quotes_topic() {
    let mut switchboard = MessagingSwitchboard::default();
    let result = switchboard.get_quotes_topic(instrument_id());
    assert_eq!(result.as_str(), "data.quotes.XCME.ESZ24");
}

#[test]
fn trades_topic() {
    let mut switchboard = MessagingSwitchboard::default();
    let result = switchboard.get_trades_topic(instrument_id());
    assert_eq!(result.as_str(), "data.trades.XCME.ESZ24");
}

#[test]
fn bars_topic() {
    let mut switchboard = MessagingSwitchboard::default();
    let bar_type = BarType::new(instrument_id(), "1-MINUTE-LAST-INTERNAL".to_string());
    let result = switchboard.get_bars_topic(bar_type);
    assert_eq!(result.as_str(), "data.bars.ESZ24.XCME-1-MINUTE-LAST-INTERNAL");
}

#[test]
fn mark_and_index_price_topics() {
    let mut switchboard = MessagingSwitchboard::default();
    assert_eq!(
        switchboard.get_mark_price_topic(instrument_id()).as_str(),
        "data.mark_prices.XCME.ESZ24"
    );
    assert_eq!(
        switchboard.get_index_price_topic(instrument_id()).as_str(),
        "data.index_prices.XCME.ESZ24"
    );
}

#[test]
fn status_and_close_topics() {
    let mut switchboard = MessagingSwitchboard::default();
    assert_eq!(
        switchboard.get_instrument_status_topic(instrument_id()).as_str(),
        "data.status.XCME.ESZ24"
    );
    assert_eq!(
        switchboard.get_instrument_close_topic(instrument_id()).as_str(),
        "data.close.XCME.ESZ24"
    );
}

#[test]
fn snapshot_and_event_topics() {
    let mut switchboard = MessagingSwitchboard::default();
    let client_order_id = ClientOrderId::new("O-123456789".to_string());
    assert_eq!(
        switchboard.get_order_snapshots_topic(client_order_id).as_str(),
        "order.snapshots.O-123456789"
    );
    let position_id = PositionId::new("P-1".to_string());
    assert_eq!(
        switchboard.get_positions_snapshots_topic(position_id).as_str(),
        "positions.snapshots.P-1"
    );
    let strategy_id = StrategyId::new("S-001".to_string());
    assert_eq!(
        switchboard.get_event_orders_topic(strategy_id).as_str(),
        "events.order.S-001"
    );
    let strategy_id = StrategyId::new("S-001".to_string());
    assert_eq!(
        switchboard.get_event_positions_topic(strategy_id).as_str(),
        "events.position.S-001"
    );
}

#[test]
fn topic_builder_is_idempotent_and_memoized() {
    let mut switchboard = MessagingSwitchboard::default();
    let first = switchboard.get_quotes_topic(instrument_id());
    assert_eq!(switchboard.quote_topics.len(), 1);
    let second = switchboard.get_quotes_topic(instrument_id());
    // Equal values, and the backing map did not grow on the second call.
    assert!(first == second);
    assert_eq!(first.as_str(), second.as_str());
    assert_eq!(switchboard.quote_topics.len(), 1);
    // A different key does grow the map.
    let other = InstrumentId::new(Symbol::new("6EZ24".to_string()), Venue::new("XCME".to_string()));
    switchboard.get_quotes_topic(other);
    assert_eq!(switchboard.quote_topics.len(), 2);
}

#[test]
fn chain_extension_topics() {
    let mut switchboard = MessagingSwitchboard::default();
    assert_eq!(
        switchboard.get_defi_blocks_topic(Blockchain::Arbitrum).as_str(),
        "defi.blocks.Arbitrum"
    );
    assert_eq!(
        switchboard.get_defi_pool_topic(instrument_id()).as_str(),
        "defi.pool.ESZ24.XCME"
    );
    assert_eq!(
        switchboard.get_defi_pool_swaps_topic(instrument_id()).as_str(),
        "defi.pool_swaps.ESZ24.XCME"
    );
    assert_eq!(
        switchboard.get_defi_liquidity_topic(instrument_id()).as_str(),
        "defi.liquidity.ESZ24.XCME"
    );
    // Memoized like every other family.
    switchboard.get_defi_blocks_topic(Blockchain::Arbitrum);
    assert_eq!(switchboard.defi_blocks_topics.len(), 1);
}

#[test]
fn well_known_endpoints() {
    assert_eq!(
        MessagingSwitchboard::data_engine_queue_execute().as_str(),
        "DataEngine.queue_execute"
    );
    assert_eq!(MessagingSwitchboard::data_engine_execute().as_str(), "DataEngine.execute");
    assert_eq!(MessagingSwitchboard::data_engine_process().as_str(), "DataEngine.process");
    assert_eq!(MessagingSwitchboard::data_engine_response().as_str(), "DataEngine.response");
    assert_eq!(MessagingSwitchboard::exec_engine_execute().as_str(), "ExecEngine.execute");
    assert_eq!(MessagingSwitchboard::exec_engine_process().as_str(), "ExecEngine.process");
}
