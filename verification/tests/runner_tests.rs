use tradecore::ids::{InstrumentId, Symbol, TradeId, Venue};
use tradecore::market::{Data, TradeTick};
use tradecore::runner::{DataCommandQueue, DataEvent, DataQueue, RunnerEvent, SyncDataQueue, TimeEvent};
use tradecore::types::{Price, Quantity};
use tradecore::uuid4::Uuid4;

fn trade_event(ts: u64) -> DataEvent {
    DataEvent::Data(Data::Trade(TradeTick {
        instrument_id: InstrumentId::new(
            Symbol::new("XBTUSD".to_string()),
            Venue::new("BITMEX".to_string()),
        ),
        price: Price::new(30000),
        size: Quantity::new(1),
        trade_id: TradeId::new("T-1".to_string()),
        ts_event: ts,
        ts_init: ts,
    }))
}

#[test]
fn sync_data_queue_is_first_in_first_out() {
    let mut q = SyncDataQueue::new();
    assert!(q.pop_next().is_none());
    q.push(trade_event(1));
    q.push(trade_event(2));
    let first = q.pop_next().unwrap();
    match first {
        DataEvent::Data(Data::Trade(t)) => assert_eq!(t.ts_event, 1),
        _ => panic!("expected a trade"),
    }
    let second = q.pop_next().unwrap();
    match second {
        DataEvent::Data(Data::Trade(t)) => assert_eq!(t.ts_event, 2),
        _ => panic!("expected a trade"),
    }
    assert!(q.pop_next().is_none());
}

#[test]
fn command_queue_is_first_in_first_out() {
    let mut q = DataCommandQueue::new();
    assert!(q.pop_next().is_none());
    assert_eq!(q.commands.len(), 0);
}

#[test]
fn runner_events_carry_data_or_timers() {
    let data = RunnerEvent::Data(trade_event(7));
    let timer = RunnerEvent::Timer(TimeEvent {
        name: "bar-close".to_string(),
        event_id: Uuid4::new(1),
        ts_event: 60,
        ts_init: 0,
    });
    match data {
        RunnerEvent::Data(DataEvent::Data(Data::Trade(t))) => assert_eq!(t.ts_event, 7),
        _ => panic!("expected data"),
    }
    match timer {
        RunnerEvent::Timer(t) => {
            assert_eq!(t.name, "bar-close");
            assert_eq!(t.ts_event, 60);
        },
        _ => panic!("expected a timer"),
    }
}
