use tradecore::actor::{ActorError, DataActorCore, DataActorConfig, DispatchDecision};
use tradecore::clock::Clock;
use tradecore::component::{ComponentState, ComponentTrigger};
use tradecore::ids::{ActorId, ClientId, InstrumentId, Symbol, TraderId, Venue};
use tradecore::chain::Blockchain;
use tradecore::messages::{
    DataCommand, DefiSubscribeCommand, DefiUnsubscribeCommand, RequestCommand, SubscribeCommand,
    UnsubscribeCommand,
};
use tradecore::msgbus::{MessageBus, Topic};
use tradecore::runner::DataCommandQueue;
use tradecore::switchboard::MessagingSwitchboard;

fn instrument_id() -> InstrumentId {
    InstrumentId::new(Symbol::new("AUDUSD".to_string()), Venue::new("SIM".to_string()))
}

fn registered_actor(clock: &Clock) -> DataActorCore {
    let config = DataActorConfig {
        actor_id: Some(ActorId::new("actor-1".to_string())),
        log_events: true,
        log_commands: true,
    };
    let mut actor = DataActorCore::new(config);
    actor.register(TraderId::new("TRADER-001".to_string()), clock).unwrap();
    actor
}

#[test]
fn new_actor_uses_default_name_without_custom_id() {
    let actor = DataActorCore::new(DataActorConfig::default());
    assert_eq!(actor.actor_id.as_str(), "DataActor");
    assert!(actor.trader_id().is_none());
    assert_eq!(actor.state(), ComponentState::Initialized);
}

#[test]
fn register_exactly_once() {
    let clock = Clock::new(0);
    let mut actor = DataActorCore::new(DataActorConfig::default());
    actor.register(TraderId::new("TRADER-001".to_string()), &clock).unwrap();
    assert_eq!(actor.trader_id().unwrap().as_str(), "TRADER-001");
    let r = actor.register(TraderId::new("TRADER-002".to_string()), &clock);
    assert_eq!(r.err(), Some(ActorError::AlreadyRegistered));
    assert_eq!(actor.trader_id().unwrap().as_str(), "TRADER-001");
}

#[test]
fn unregistered_actor_must_not_subscribe() {
    let clock = Clock::new(0);
    let mut actor = DataActorCore::new(DataActorConfig::default());
    let mut bus = MessageBus::new();
    let mut switchboard = MessagingSwitchboard::default();
    let mut cmds = DataCommandQueue::new();
    let r = actor.subscribe_quotes(
        &mut bus,
        &mut switchboard,
        &mut cmds,
        &clock,
        instrument_id(),
        None,
        None,
    );
    assert_eq!(r.err(), Some(ActorError::NotRegistered));
    assert_eq!(cmds.commands.len(), 0);
    assert_eq!(actor.topic_handlers.len(), 0);
}

#[test]
fn subscribing_twice_keeps_one_handler_entry() {
    let clock = Clock::new(5);
    let mut actor = registered_actor(&clock);
    let mut bus = MessageBus::new();
    let mut switchboard = MessagingSwitchboard::default();
    let mut cmds = DataCommandQueue::new();

    actor
        .subscribe_quotes(&mut bus, &mut switchboard, &mut cmds, &clock, instrument_id(), None, None)
        .unwrap();
    actor
        .subscribe_quotes(&mut bus, &mut switchboard, &mut cmds, &clock, instrument_id(), None, None)
        .unwrap();

    // Exactly one entry in the actor's topic-handler map, and exactly one
    // handler registered on the bus.
    assert_eq!(actor.topic_handlers.len(), 1);
    let topic = Topic::new("data.quotes.SIM.AUDUSD".to_string());
    let subs = bus.subscribers_for(&topic);
    assert_eq!(subs.len(), 1);
    assert_eq!(subs[0].as_str(), "actor-1.data.quotes.SIM.AUDUSD");

    // Without a client id the subscription is purely local: no command went
    // to the engine.
    assert_eq!(cmds.commands.len(), 0);
}

#[test]
fn subscribe_with_client_id_emits_the_engine_command() {
    let clock = Clock::new(5);
    let mut actor = registered_actor(&clock);
    let mut bus = MessageBus::new();
    let mut switchboard = MessagingSwitchboard::default();
    let mut cmds = DataCommandQueue::new();

    actor
        .subscribe_quotes(
            &mut bus,
            &mut switchboard,
            &mut cmds,
            &clock,
            instrument_id(),
            Some(ClientId::new("FEED".to_string())),
            None,
        )
        .unwrap();

    assert_eq!(cmds.commands.len(), 1);
    match &cmds.commands[0] {
        DataCommand::Subscribe(SubscribeCommand::Quotes(c)) => {
            assert_eq!(c.instrument_id.symbol.as_str(), "AUDUSD");
            assert_eq!(c.venue.as_ref().unwrap().as_str(), "SIM");
            assert_eq!(c.client_id.as_ref().unwrap().as_str(), "FEED");
            assert_eq!(c.ts_init, 5);
        },
        other => panic!("unexpected command: {:?}", queue_kind(other)),
    }
}

fn queue_kind(cmd: &DataCommand) -> &'static str {
    match cmd {
        DataCommand::Request(_) => "request",
        DataCommand::Subscribe(_) => "subscribe",
        DataCommand::Unsubscribe(_) => "unsubscribe",
        DataCommand::DefiSubscribe(_) => "chain subscribe",
        DataCommand::DefiUnsubscribe(_) => "chain unsubscribe",
    }
}

#[test]
fn unsubscribe_without_prior_subscription_is_a_no_op() {
    let clock = Clock::new(5);
    let actor = registered_actor(&clock);
    let mut bus = MessageBus::new();
    let mut switchboard = MessagingSwitchboard::default();
    let mut cmds = DataCommandQueue::new();

    let r = actor.unsubscribe_quotes(
        &mut bus,
        &mut switchboard,
        &mut cmds,
        &clock,
        instrument_id(),
        None,
        None,
    );
    assert!(r.is_ok());
    // No bus state was touched, and without a client id nothing went to the
    // engine either.
    assert_eq!(bus.subscriptions.len(), 0);
    assert_eq!(cmds.commands.len(), 0);

    // With a client id the unsubscribe command is emitted even though no
    // local subscription existed.
    let r = actor.unsubscribe_quotes(
        &mut bus,
        &mut switchboard,
        &mut cmds,
        &clock,
        instrument_id(),
        Some(ClientId::new("FEED".to_string())),
        None,
    );
    assert!(r.is_ok());
    assert_eq!(cmds.commands.len(), 1);
    assert!(matches!(
        cmds.commands[0],
        DataCommand::Unsubscribe(UnsubscribeCommand::Quotes(_))
    ));
}

#[test]
fn subscribe_then_unsubscribe_removes_the_bus_entry() {
    let clock = Clock::new(5);
    let mut actor = registered_actor(&clock);
    let mut bus = MessageBus::new();
    let mut switchboard = MessagingSwitchboard::default();
    let mut cmds = DataCommandQueue::new();

    actor
        .subscribe_trades(&mut bus, &mut switchboard, &mut cmds, &clock, instrument_id(), None, None)
        .unwrap();
    let topic = Topic::new("data.trades.SIM.AUDUSD".to_string());
    assert_eq!(bus.subscribers_for(&topic).len(), 1);

    actor
        .unsubscribe_trades(&mut bus, &mut switchboard, &mut cmds, &clock, instrument_id(), None, None)
        .unwrap();
    assert_eq!(bus.subscribers_for(&topic).len(), 0);
}

#[test]
fn request_time_bounds_are_checked_against_the_clock() {
    let now: u64 = 100_000_000_000;
    let clock = Clock::new(now);
    let actor = registered_actor(&clock);
    let mut bus = MessageBus::new();
    let mut cmds = DataCommandQueue::new();

    // start one second in the future: refused.
    let r = actor.request_quotes(
        &mut bus,
        &mut cmds,
        &clock,
        instrument_id(),
        Some(now + 1_000_000_000),
        None,
        None,
        None,
        None,
    );
    assert_eq!(r.err(), Some(ActorError::InvalidTimeRange));
    assert_eq!(cmds.commands.len(), 0);
    assert_eq!(bus.correlations.len(), 0);

    // a window wholly in the past: accepted, handler registered, command
    // queued with the returned correlation id.
    let rid = actor
        .request_quotes(
            &mut bus,
            &mut cmds,
            &clock,
            instrument_id(),
            Some(now - 10_000_000_000),
            Some(now - 5_000_000_000),
            None,
            None,
            None,
        )
        .unwrap();
    assert_eq!(bus.correlations.len(), 1);
    assert_eq!(bus.correlations[0].0, rid);
    assert_eq!(bus.correlations[0].1.as_str(), "actor-1.quotes");
    assert_eq!(cmds.commands.len(), 1);
    match &cmds.commands[0] {
        DataCommand::Request(RequestCommand::Quotes(c)) => {
            assert_eq!(c.request_id, rid);
            assert_eq!(c.start, Some(now - 10_000_000_000));
            assert_eq!(c.end, Some(now - 5_000_000_000));
            assert_eq!(c.ts_init, now);
        },
        _ => panic!("expected a quotes request"),
    }
}

#[test]
fn request_rejects_inverted_window() {
    let now: u64 = 1_000;
    let clock = Clock::new(now);
    let actor = registered_actor(&clock);
    let mut bus = MessageBus::new();
    let mut cmds = DataCommandQueue::new();
    let r = actor.request_trades(
        &mut bus,
        &mut cmds,
        &clock,
        instrument_id(),
        Some(900),
        Some(900),
        None,
        None,
        None,
    );
    assert_eq!(r.err(), Some(ActorError::InvalidTimeRange));
}

#[test]
fn lifecycle_follows_the_transition_table() {
    let clock = Clock::new(0);
    let mut actor = registered_actor(&clock);
    assert_eq!(actor.state(), ComponentState::Initialized);
    actor.transition_state(ComponentTrigger::Start).unwrap();
    assert_eq!(actor.state(), ComponentState::Starting);
    actor.transition_state(ComponentTrigger::StartCompleted).unwrap();
    assert_eq!(actor.state(), ComponentState::Running);
    assert!(actor.is_running());
    actor.transition_state(ComponentTrigger::Stop).unwrap();
    actor.transition_state(ComponentTrigger::StopCompleted).unwrap();
    assert_eq!(actor.state(), ComponentState::Stopped);
    actor.transition_state(ComponentTrigger::Resume).unwrap();
    actor.transition_state(ComponentTrigger::ResumeCompleted).unwrap();
    assert_eq!(actor.state(), ComponentState::Running);
}

#[test]
fn illegal_lifecycle_trigger_fails_without_mutating() {
    let clock = Clock::new(0);
    let mut actor = registered_actor(&clock);
    let r = actor.transition_state(ComponentTrigger::StartCompleted);
    assert!(r.is_err());
    assert_eq!(actor.state(), ComponentState::Initialized);
}

#[test]
fn disposed_and_faulted_are_absorbing() {
    let triggers = [
        ComponentTrigger::Start,
        ComponentTrigger::StartCompleted,
        ComponentTrigger::Stop,
        ComponentTrigger::StopCompleted,
        ComponentTrigger::Resume,
        ComponentTrigger::ResumeCompleted,
        ComponentTrigger::Degrade,
        ComponentTrigger::DegradeCompleted,
        ComponentTrigger::Fault,
        ComponentTrigger::FaultCompleted,
        ComponentTrigger::Dispose,
    ];
    for t in triggers {
        assert!(ComponentState::Disposed.transition(t).is_err());
        assert!(ComponentState::Faulted.transition(t).is_err());
    }
}

#[test]
fn shutdown_system_builds_the_command_and_resolves_the_endpoint() {
    let clock = Clock::new(9);
    let actor = registered_actor(&clock);
    let bus = MessageBus::new();
    // No handler is wired at the shutdown endpoint yet: the command is
    // handed back with nowhere to go, and that is not an error.
    let (cmd, handler) = actor
        .shutdown_system(&bus, &clock, Some("end of session".to_string()))
        .unwrap();
    assert_eq!(cmd.trader_id.as_str(), "TRADER-001");
    assert_eq!(cmd.component_id, "actor-1");
    assert_eq!(cmd.reason.as_deref(), Some("end of session"));
    assert_eq!(cmd.ts_init, 9);
    assert!(handler.is_none());

    let unregistered = DataActorCore::new(DataActorConfig::default());
    assert_eq!(
        unregistered.shutdown_system(&bus, &clock, None).err(),
        Some(ActorError::NotRegistered)
    );
}

#[test]
fn chain_subscriptions_follow_the_same_template() {
    let clock = Clock::new(5);
    let mut actor = registered_actor(&clock);
    let mut bus = MessageBus::new();
    let mut switchboard = MessagingSwitchboard::default();
    let mut cmds = DataCommandQueue::new();

    // Without a client id the block subscription is purely local.
    actor
        .subscribe_blocks(&mut bus, &mut switchboard, &mut cmds, &clock, Blockchain::Ethereum, None, None)
        .unwrap();
    let topic = Topic::new("defi.blocks.Ethereum".to_string());
    assert_eq!(bus.subscribers_for(&topic).len(), 1);
    assert_eq!(cmds.commands.len(), 0);

    // Subscribing twice still leaves one handler; with a client id the
    // command goes to the engine.
    actor
        .subscribe_blocks(
            &mut bus,
            &mut switchboard,
            &mut cmds,
            &clock,
            Blockchain::Ethereum,
            Some(ClientId::new("CHAIN".to_string())),
            None,
        )
        .unwrap();
    assert_eq!(bus.subscribers_for(&topic).len(), 1);
    assert_eq!(actor.topic_handlers.len(), 1);
    assert_eq!(cmds.commands.len(), 1);
    match &cmds.commands[0] {
        DataCommand::DefiSubscribe(DefiSubscribeCommand::Blocks(c)) => {
            assert_eq!(c.chain, Blockchain::Ethereum);
            assert_eq!(c.client_id.as_ref().unwrap().as_str(), "CHAIN");
            assert_eq!(c.ts_init, 5);
        },
        other => panic!("unexpected command: {:?}", queue_kind(other)),
    }

    // Pool swaps unsubscribe: removes the handler, and with a client id the
    // command is emitted.
    actor
        .subscribe_pool_swaps(&mut bus, &mut switchboard, &mut cmds, &clock, instrument_id(), None, None)
        .unwrap();
    let swaps_topic = Topic::new("defi.pool_swaps.AUDUSD.SIM".to_string());
    assert_eq!(bus.subscribers_for(&swaps_topic).len(), 1);
    actor
        .unsubscribe_pool_swaps(
            &mut bus,
            &mut switchboard,
            &mut cmds,
            &clock,
            instrument_id(),
            Some(ClientId::new("CHAIN".to_string())),
            None,
        )
        .unwrap();
    assert_eq!(bus.subscribers_for(&swaps_topic).len(), 0);
    assert!(matches!(
        cmds.commands[1],
        DataCommand::DefiUnsubscribe(DefiUnsubscribeCommand::PoolSwaps(_))
    ));
}

#[test]
fn inbound_dispatch_is_gated_on_running() {
    let clock = Clock::new(0);
    let mut actor = registered_actor(&clock);
    assert_eq!(actor.dispatch_decision(), DispatchDecision::DropWithWarning);
    actor.transition_state(ComponentTrigger::Start).unwrap();
    assert_eq!(actor.dispatch_decision(), DispatchDecision::DropWithWarning);
    actor.transition_state(ComponentTrigger::StartCompleted).unwrap();
    assert_eq!(actor.dispatch_decision(), DispatchDecision::Deliver);
    actor.transition_state(ComponentTrigger::Stop).unwrap();
    assert_eq!(actor.dispatch_decision(), DispatchDecision::DropWithWarning);
}

#[test]
fn warning_events_behave_as_a_set() {
    let mut actor = DataActorCore::new(DataActorConfig::default());
    actor.register_warning_event("OrderDenied");
    actor.register_warning_event("OrderDenied");
    assert_eq!(actor.warning_events.len(), 1);
    actor.register_warning_event("OrderRejected");
    assert_eq!(actor.warning_events.len(), 2);
    actor.deregister_warning_event("OrderDenied");
    assert_eq!(actor.warning_events.len(), 1);
    assert_eq!(actor.warning_events[0], "OrderRejected");
    // Deregistering one never registered is a no-op.
    actor.deregister_warning_event("OrderDenied");
    assert_eq!(actor.warning_events.len(), 1);
}
