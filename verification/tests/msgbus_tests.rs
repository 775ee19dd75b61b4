use tradecore::msgbus::{Endpoint, HandlerId, MessageBus, Topic};
use tradecore::uuid4::Uuid4;

fn topic(s: &str) -> Topic {
    Topic::new(s.to_string())
}

fn handler(s: &str) -> HandlerId {
    HandlerId::new(s.to_string())
}

#[test]
fn subscribe_and_list_subscribers() {
    let mut bus = MessageBus::new();
    bus.subscribe_topic(topic("data.quotes.SIM.AUDUSD"), handler("actor-1.q"), 0);
    bus.subscribe_topic(topic("data.quotes.SIM.AUDUSD"), handler("actor-2.q"), 0);
    let subs = bus.subscribers_for(&topic("data.quotes.SIM.AUDUSD"));
    assert_eq!(subs.len(), 2);
    assert_eq!(subs[0].as_str(), "actor-1.q");
    assert_eq!(subs[1].as_str(), "actor-2.q");
}

#[test]
fn subscribing_same_handler_twice_registers_once() {
    let mut bus = MessageBus::new();
    bus.subscribe_topic(topic("data.trades.SIM.AUDUSD"), handler("actor-1.t"), 0);
    bus.subscribe_topic(topic("data.trades.SIM.AUDUSD"), handler("actor-1.t"), 0);
    let subs = bus.subscribers_for(&topic("data.trades.SIM.AUDUSD"));
    assert_eq!(subs.len(), 1);
    assert_eq!(subs[0].as_str(), "actor-1.t");
}

#[test]
fn delivery_order_follows_priority_then_insertion() {
    let mut bus = MessageBus::new();
    bus.subscribe_topic(topic("t"), handler("low-first"), 1);
    bus.subscribe_topic(topic("t"), handler("high"), 5);
    bus.subscribe_topic(topic("t"), handler("low-second"), 1);
    bus.subscribe_topic(topic("t"), handler("mid"), 3);
    let subs = bus.subscribers_for(&topic("t"));
    assert_eq!(subs.len(), 4);
    assert_eq!(subs[0].as_str(), "high");
    assert_eq!(subs[1].as_str(), "mid");
    assert_eq!(subs[2].as_str(), "low-first");
    assert_eq!(subs[3].as_str(), "low-second");
}

#[test]
fn unsubscribe_removes_exactly_the_matching_handler() {
    let mut bus = MessageBus::new();
    bus.subscribe_topic(topic("t"), handler("a"), 0);
    bus.subscribe_topic(topic("t"), handler("b"), 0);
    bus.unsubscribe_topic(&topic("t"), &handler("a"));
    let subs = bus.subscribers_for(&topic("t"));
    assert_eq!(subs.len(), 1);
    assert_eq!(subs[0].as_str(), "b");
}

#[test]
fn unsubscribe_without_subscription_is_a_no_op() {
    let mut bus = MessageBus::new();
    bus.subscribe_topic(topic("t"), handler("a"), 0);
    // Unknown topic: nothing happens, no error.
    bus.unsubscribe_topic(&topic("unknown"), &handler("a"));
    // Known topic, unknown handler: nothing happens either.
    bus.unsubscribe_topic(&topic("t"), &handler("never-subscribed"));
    let subs = bus.subscribers_for(&topic("t"));
    assert_eq!(subs.len(), 1);
}

#[test]
fn endpoint_has_a_single_handler() {
    let mut bus = MessageBus::new();
    let ep = Endpoint::new("DataEngine.queue_execute".to_string());
    assert!(!bus.is_endpoint_registered(&ep));
    assert!(bus.send_any(&ep).is_none());
    bus.register_endpoint(ep, handler("engine"));
    let ep = Endpoint::new("DataEngine.queue_execute".to_string());
    assert!(bus.is_endpoint_registered(&ep));
    let h = bus.send_any(&ep).unwrap();
    assert_eq!(h.as_str(), "engine");
}

#[test]
fn response_handler_is_delivered_exactly_once() {
    let mut bus = MessageBus::new();
    let rid = Uuid4::new(77);
    bus.register_response_handler(rid, handler("actor-1.quotes")).unwrap();
    // A second registration under the same correlation id is refused.
    assert!(bus.register_response_handler(rid, handler("actor-2.quotes")).is_err());
    let h = bus.take_response_handler(rid).unwrap();
    assert_eq!(h.as_str(), "actor-1.quotes");
    // The mapping is gone after delivery.
    assert!(bus.take_response_handler(rid).is_none());
}
