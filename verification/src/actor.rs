//! The data-actor core: per-actor registration, subscription bookkeeping,
//! outbound command construction and the lifecycle state. An actor owns one
//! handler identity per topic, created on first subscription and reused on
//! every later one, so the same (actor, topic) pair is never delivered to
//! twice; commands it emits are queued for the data engine.

use vstd::prelude::*;
use crate::chain::{blockchain_name_spec, Blockchain};
use crate::clock::Clock;
use crate::component::{transition_spec, ComponentState, ComponentTrigger, TransitionError};
use crate::enums::BookType;
use crate::ids::{ActorId, BarType, ClientId, DataType, InstrumentId, TraderId, Venue};
use crate::messages::{DataCommand, RequestBars, RequestBookSnapshot, RequestCommand, RequestData,
    RequestInstrument, RequestInstruments, RequestQuotes, RequestTrades, SubscribeBars,
    SubscribeBookDeltas, SubscribeBookSnapshots, SubscribeCommand, SubscribeData,
    SubscribeIndexPrices, SubscribeInstrument, SubscribeInstrumentClose,
    SubscribeInstrumentStatus, SubscribeInstruments, SubscribeMarkPrices, SubscribeQuotes,
    SubscribeTrades, UnsubscribeBars, UnsubscribeBookDeltas, UnsubscribeBookSnapshots,
    UnsubscribeCommand, UnsubscribeData, UnsubscribeIndexPrices, UnsubscribeInstrument,
    UnsubscribeInstrumentClose, UnsubscribeInstrumentStatus, UnsubscribeInstruments,
    DefiSubscribeCommand, DefiUnsubscribeCommand, ShutdownSystem, SubscribeBlocks,
    SubscribePool, SubscribePoolLiquidityUpdates, SubscribePoolSwaps, UnsubscribeBlocks,
    UnsubscribeMarkPrices, UnsubscribePool, UnsubscribePoolLiquidityUpdates,
    UnsubscribePoolSwaps, UnsubscribeQuotes, UnsubscribeTrades};
use crate::msgbus::{endpoint_handler, has_correlation, has_handler,
    lemma_insert_sub_has_handler, remove_sub, Endpoint, HandlerId, MessageBus, Subscription,
    Topic};
use crate::runner::DataCommandQueue;
use crate::switchboard::{bars_topic_spec, book_deltas_topic_spec, book_snapshots_topic_spec,
    custom_topic_spec, defi_blocks_topic_spec, defi_liquidity_topic_spec,
    defi_pool_swaps_topic_spec, defi_pool_topic_spec, has_key, index_price_topic_spec,
    instrument_close_topic_spec,
    instrument_status_topic_spec, instrument_topic_spec, instruments_topic_spec,
    mark_price_topic_spec, quotes_topic_spec, trades_topic_spec, MessagingSwitchboard};
use crate::uuid4::Uuid4;

verus! {

/// Common configuration for data actors.
pub struct DataActorConfig {
    /// The custom identifier for the actor, if any.
    pub actor_id: Option<ActorId>,
    /// Whether events should be logged.
    pub log_events: bool,
    /// Whether commands should be logged.
    pub log_commands: bool,
}

impl Default for DataActorConfig {
    /// No custom identifier; events and commands are logged.
    fn default() -> (r: Self)
        ensures
            r.actor_id is None,
            r.log_events,
            r.log_commands,
    {
        DataActorConfig { actor_id: None, log_events: true, log_commands: true }
    }
}

/// Why the actor refused an operation.
#[derive(Clone, Copy, Debug, PartialEq, Eq, Structural)]
pub enum ActorError {
    /// The actor is already registered with a trader.
    AlreadyRegistered,
    /// The actor was never registered; it must not subscribe or request.
    NotRegistered,
    /// A request's time bounds do not satisfy `start <= now`, `end <= now`
    /// and `start < end`.
    InvalidTimeRange,
    /// The freshly drawn request id collided with a pending one (the id it
    /// drew is carried along).
    DuplicateRequestId(Uuid4),
}

/// What to do with an inbound message: hand it to the user callback, or
/// drop it with a logged warning — the data loss is intentional and
/// observable, never silent.
#[derive(Clone, Copy, Debug, PartialEq, Eq, Structural)]
pub enum DispatchDecision {
    /// The component is running: deliver the message to the callback.
    Deliver,
    /// The component is not running: drop the message and log a warning.
    DropWithWarning,
}

/// The identity of the handler an actor registers for a topic (or keeps for
/// a response kind): its own id, a dot, and the topic or kind.
pub open spec fn handler_id_spec(actor_id: Seq<char>, suffix: Seq<char>) -> Seq<char> {
    actor_id + "."@ + suffix
}

/// The time-bound rule every historical request must satisfy against the
/// clock: no bound in the future, and a non-empty window when both given.
pub open spec fn time_range_ok(start: Option<u64>, end: Option<u64>, now: u64) -> bool {
    &&& (start matches Some(s) ==> s <= now)
    &&& (end matches Some(e) ==> e <= now)
    &&& ((start, end) matches (Some(s), Some(e)) ==> s < e)
}

/// Core state of a data actor.
pub struct DataActorCore {
    /// The actor identifier.
    pub actor_id: ActorId,
    /// The actor's configuration.
    pub config: DataActorConfig,
    /// The trader the actor is registered to; populated exactly once.
    pub trader_id: Option<TraderId>,
    /// The lifecycle state.
    pub state: ComponentState,
    /// The event types registered for warning-level logging.
    pub warning_events: Vec<String>,
    /// The handler identity kept per subscribed topic.
    pub topic_handlers: Vec<(Topic, HandlerId)>,
}

impl DataActorCore {
    /// The event types registered for warning-level logging, as views.
    pub open spec fn warning_events_spec(&self) -> Seq<Seq<char>> {
        Seq::new(self.warning_events@.len(), |i: int| self.warning_events@[i]@)
    }

    /// The topic-handler map as views are spoken of in contracts.
    pub open spec fn topic_handlers_spec(&self) -> Seq<(Topic, HandlerId)> {
        self.topic_handlers@
    }

    /// Whether the actor has been registered with a trader.
    pub open spec fn is_registered(&self) -> bool {
        self.trader_id is Some
    }

    /// The actor invariant: each kept handler carries the identity derived
    /// from the actor id and its topic, and no topic has two entries.
    pub open spec fn wf(&self) -> bool {
        &&& (forall|i: int|
            0 <= i < self.topic_handlers_spec().len() ==> (
            #[trigger] self.topic_handlers_spec()[i]).1@ == handler_id_spec(
                self.actor_id@,
                self.topic_handlers_spec()[i].0@,
            ))
        &&& (forall|i: int, j: int|
            0 <= i < j < self.topic_handlers_spec().len() ==> (
            #[trigger] self.topic_handlers_spec()[i]).0@ != (
            #[trigger] self.topic_handlers_spec()[j]).0@)
        &&& (forall|i: int, j: int|
            0 <= i < j < self.warning_events_spec().len() ==> (
            #[trigger] self.warning_events_spec()[i]) != (
            #[trigger] self.warning_events_spec()[j]))
    }

    /// A fresh, unregistered actor in its initial lifecycle state. Without a
    /// custom identifier in the configuration the actor carries the default
    /// name.
    pub fn new(config: DataActorConfig) -> (r: Self)
        ensures
            r.wf(),
            r.actor_id@ == (match config.actor_id {
                Some(id) => id@,
                None => "DataActor"@,
            }),
            r.config == config,
            !r.is_registered(),
            r.state == ComponentState::Initialized,
            r.topic_handlers_spec().len() == 0,
            r.warning_events_spec().len() == 0,
    {
        let actor_id = match &config.actor_id {
            Some(id) => id.clone(),
            None => ActorId::new(String::from_str("DataActor")),
        };
        let r = DataActorCore {
            actor_id,
            config,
            trader_id: None,
            state: ComponentState::Initialized,
            warning_events: Vec::new(),
            topic_handlers: Vec::new(),
        };
        proof {
            assert(r.warning_events_spec() =~= Seq::<Seq<char>>::empty());
        }
        r
    }

    /// The trader the actor is registered to, if any.
    pub fn trader_id(&self) -> (r: Option<&TraderId>)
        ensures
            match r {
                Some(t) => self.trader_id == Some(*t),
                None => self.trader_id is None,
            },
    {
        self.trader_id.as_ref()
    }

    /// The actor identifier.
    pub fn actor_id(&self) -> (r: &ActorId)
        ensures
            r == &self.actor_id,
    {
        &self.actor_id
    }

    /// The lifecycle state.
    pub fn state(&self) -> (r: ComponentState)
        ensures
            r == self.state,
    {
        self.state
    }

    /// Whether the actor is running: inbound data is dispatched to user
    /// callbacks only then, and dropped (with a warning) otherwise.
    pub fn is_running(&self) -> (r: bool)
        ensures
            r == (self.state == ComponentState::Running),
    {
        self.state == ComponentState::Running
    }

    /// The not-running guard: the decision every inbound data dispatch
    /// consults before invoking a user callback. A message is delivered
    /// exactly when the component is running; in every other state it is
    /// dropped, with a warning logged by the runner.
    pub fn dispatch_decision(&self) -> (r: DispatchDecision)
        ensures
            r == DispatchDecision::Deliver <==> self.state == ComponentState::Running,
            r == DispatchDecision::DropWithWarning <==> self.state != ComponentState::Running,
    {
        if self.state == ComponentState::Running {
            DispatchDecision::Deliver
        } else {
            DispatchDecision::DropWithWarning
        }
    }

    /// Registers the actor with a trader exactly once; the clock is read
    /// once to check it is reachable before the registration commits.
    pub fn register(&mut self, trader_id: TraderId, clock: &Clock) -> (r: Result<(), ActorError>)
        ensures
            match r {
                Ok(()) => {
                    &&& !old(self).is_registered()
                    &&& final(self).trader_id == Some(trader_id)
                    &&& final(self).actor_id == old(self).actor_id
                    &&& final(self).config == old(self).config
                    &&& final(self).state == old(self).state
                    &&& final(self).topic_handlers_spec() == old(self).topic_handlers_spec()
                    &&& final(self).warning_events_spec() == old(self).warning_events_spec()
                },
                Err(e) => {
                    &&& e == ActorError::AlreadyRegistered
                    &&& old(self).is_registered()
                    &&& *final(self) == *old(self)
                },
            },
    {
        if self.trader_id.is_some() {
            return Err(ActorError::AlreadyRegistered);
        }
        let _now = clock.timestamp_ns();
        self.trader_id = Some(trader_id);
        Ok(())
    }

    /// Applies a lifecycle trigger; an illegal one is refused and changes
    /// nothing. Registration must have happened first: no lifecycle method
    /// beyond construction is legal before it.
    pub fn transition_state(&mut self, trigger: ComponentTrigger) -> (r: Result<
        (),
        TransitionError,
    >)
        requires
            old(self).is_registered(),
        ensures
            match r {
                Ok(()) => {
                    &&& transition_spec(old(self).state, trigger) == Some(
                        final(self).state,
                    )
                    &&& final(self).actor_id == old(self).actor_id
                    &&& final(self).config == old(self).config
                    &&& final(self).trader_id == old(self).trader_id
                    &&& final(self).topic_handlers_spec() == old(self).topic_handlers_spec()
                    &&& final(self).warning_events_spec() == old(self).warning_events_spec()
                },
                Err(e) => {
                    &&& e == TransitionError::InvalidTransition
                    &&& (transition_spec(old(self).state, trigger) is None)
                    &&& *final(self) == *old(self)
                },
            },
    {
        match self.state.transition(trigger) {
            Ok(ns) => {
                self.state = ns;
                Ok(())
            },
            Err(e) => Err(e),
        }
    }

    /// Registers an event type for warning-level logging; registering one
    /// already present changes nothing.
    #[verifier::loop_isolation(false)]
    pub fn register_warning_event(&mut self, event_type: &str)
        requires
            old(self).wf(),
        ensures
            final(self).wf(),
            final(self).actor_id == old(self).actor_id,
            final(self).config == old(self).config,
            final(self).trader_id == old(self).trader_id,
            final(self).state == old(self).state,
            final(self).topic_handlers_spec() == old(self).topic_handlers_spec(),
            old(self).warning_events_spec().contains(event_type@) ==> final(self).warning_events_spec() == old(self).warning_events_spec(),
            !old(self).warning_events_spec().contains(event_type@) ==> final(self).warning_events_spec() == old(self).warning_events_spec().push(event_type@),
            final(self).warning_events_spec().contains(event_type@),
    {
        let et = String::from_str(event_type);
        let n = self.warning_events.len();
        let mut k: usize = 0;
        while k < n
            invariant
                n == self.warning_events@.len(),
                k <= n,
                *self == *old(self),
                et@ == event_type@,
                forall|j: int| 0 <= j < k ==> self.warning_events@[j]@ != event_type@,
            decreases n - k,
        {
            let ghost pre = self.warning_events_spec();
            if self.warning_events[k] == et {
                proof {
                    assert(pre[k as int] == event_type@);
                    assert(pre.contains(event_type@));
                }
                return ;
            }
            k += 1;
        }
        proof {
            assert forall|j: int|
                0 <= j < self.warning_events_spec().len() implies self.warning_events_spec()[j]
                != event_type@ by {}
            assert(!self.warning_events_spec().contains(event_type@));
        }
        self.warning_events.push(et);
        proof {
            assert(self.topic_handlers@ == old(self).topic_handlers@);
            assert(self.actor_id == old(self).actor_id);
            assert(old(self).wf());
            assert forall|i: int|
                0 <= i < self.topic_handlers_spec().len() implies (
            #[trigger] self.topic_handlers_spec()[i]).1@ == handler_id_spec(
                self.actor_id@,
                self.topic_handlers_spec()[i].0@,
            ) by {
                assert(old(self).topic_handlers_spec()[i].1@ == handler_id_spec(
                    old(self).actor_id@,
                    old(self).topic_handlers_spec()[i].0@,
                ));
            }
            assert forall|i: int, j: int|
                0 <= i < j < self.topic_handlers_spec().len() implies (
            #[trigger] self.topic_handlers_spec()[i]).0@ != (
            #[trigger] self.topic_handlers_spec()[j]).0@ by {
                assert(old(self).topic_handlers_spec()[i].0@ != old(
                    self,
                ).topic_handlers_spec()[j].0@);
            }
            let w1 = self.warning_events_spec();
            let w0 = old(self).warning_events_spec();
            assert(w1 =~= w0.push(event_type@));
            assert(w1.last() == event_type@);
            assert forall|i: int, j: int|
                0 <= i < j < w1.len() implies w1[i] != w1[j] by {
                if j < w0.len() {
                    assert(w1[i] == w0[i] && w1[j] == w0[j]);
                } else {
                    assert(w1[j] == event_type@);
                    assert(w1[i] == w0[i]);
                    assert(!w0.contains(event_type@));
                }
            }
        }
    }

    /// Deregisters an event type from warning-level logging; one never
    /// registered is a no-op.
    #[verifier::loop_isolation(false)]
    pub fn deregister_warning_event(&mut self, event_type: &str)
        requires
            old(self).wf(),
        ensures
            final(self).wf(),
            final(self).actor_id == old(self).actor_id,
            final(self).config == old(self).config,
            final(self).trader_id == old(self).trader_id,
            final(self).state == old(self).state,
            final(self).topic_handlers_spec() == old(self).topic_handlers_spec(),
            !old(self).warning_events_spec().contains(event_type@) ==> *final(self) == *old(self),
            old(self).warning_events_spec().contains(event_type@) ==> exists|i: int|
                0 <= i < old(self).warning_events_spec().len()
                    && (#[trigger] old(self).warning_events_spec()[i]) == event_type@
                    && final(self).warning_events_spec() == old(self).warning_events_spec().subrange(0, i)
                    + old(self).warning_events_spec().subrange(
                    i + 1,
                    old(self).warning_events_spec().len() as int,
                ),
            !final(self).warning_events_spec().contains(event_type@),
    {
        let ghost w0 = self.warning_events_spec();
        let et = String::from_str(event_type);
        let n = self.warning_events.len();
        let mut k: usize = 0;
        while k < n
            invariant
                n == self.warning_events@.len(),
                k <= n,
                *self == *old(self),
                et@ == event_type@,
                forall|j: int| 0 <= j < k ==> self.warning_events@[j]@ != event_type@,
            decreases n - k,
        {
            if self.warning_events[k] == et {
                self.warning_events.remove(k);
                proof {
                    assert(w0[k as int] == event_type@);
                    assert(w0.contains(event_type@));
                    assert(self.warning_events@ =~= old(self).warning_events@.subrange(0, k as int)
                        + old(self).warning_events@.subrange(
                        k as int + 1,
                        old(self).warning_events@.len() as int,
                    ));
                    assert(self.warning_events_spec() =~= w0.subrange(0, k as int) + w0.subrange(
                        k as int + 1,
                        w0.len() as int,
                    ));
                    assert forall|j: int|
                        0 <= j < self.warning_events_spec().len() implies self.warning_events_spec()[j]
                        != event_type@ by {
                        if j < k {
                            assert(self.warning_events_spec()[j] == w0[j]);
                        } else {
                            assert(self.warning_events_spec()[j] == w0[j + 1]);
                        }
                    }
                    assert(!self.warning_events_spec().contains(event_type@));
                    let w1 = self.warning_events_spec();
                    assert forall|i: int, j: int|
                        0 <= i < j < w1.len() implies w1[i] != w1[j] by {
                        let i0: int = if i < k { i } else { i + 1 };
                        let j0: int = if j < k { j } else { j + 1 };
                        assert(w1[i] == w0[i0] && w1[j] == w0[j0]);
                    }
                    assert forall|i: int|
                        0 <= i < self.topic_handlers_spec().len() implies (
                    #[trigger] self.topic_handlers_spec()[i]).1@ == handler_id_spec(
                        self.actor_id@,
                        self.topic_handlers_spec()[i].0@,
                    ) by {
                        assert(old(self).topic_handlers_spec()[i].1@ == handler_id_spec(
                            old(self).actor_id@,
                            old(self).topic_handlers_spec()[i].0@,
                        ));
                    }
            assert forall|i: int, j: int|
                0 <= i < j < self.topic_handlers_spec().len() implies (
            #[trigger] self.topic_handlers_spec()[i]).0@ != (
            #[trigger] self.topic_handlers_spec()[j]).0@ by {
                assert(old(self).topic_handlers_spec()[i].0@ != old(
                    self,
                ).topic_handlers_spec()[j].0@);
            }
                }
                return ;
            }
            k += 1;
        }
        proof {
            assert forall|j: int|
                0 <= j < self.warning_events_spec().len() implies self.warning_events_spec()[j]
                != event_type@ by {}
            assert(!self.warning_events_spec().contains(event_type@));
        }
    }

    /// The handler identity the actor keeps for `topic`: created and stored
    /// on first use, returned unchanged on every later one, so the map holds
    /// exactly one entry per topic.
    #[verifier::loop_isolation(false)]
    fn get_or_create_handler_for_topic(&mut self, topic: &Topic) -> (h: HandlerId)
        requires
            old(self).wf(),
        ensures
            final(self).wf(),
            h@ == handler_id_spec(old(self).actor_id@, topic@),
            has_key(old(self).topic_handlers_spec(), topic@) ==> final(self).topic_handlers_spec()
                == old(self).topic_handlers_spec(),
            !has_key(old(self).topic_handlers_spec(), topic@) ==> {
                &&& final(self).topic_handlers_spec().len() == old(
                    self,
                ).topic_handlers_spec().len() + 1
                &&& final(self).topic_handlers_spec().last().0@ == topic@
                &&& final(self).topic_handlers_spec().last().1@ == h@
                &&& final(self).topic_handlers_spec().subrange(
                    0,
                    old(self).topic_handlers_spec().len() as int,
                ) == old(self).topic_handlers_spec()
            },
            has_key(final(self).topic_handlers_spec(), topic@),
            final(self).actor_id == old(self).actor_id,
            final(self).config == old(self).config,
            final(self).trader_id == old(self).trader_id,
            final(self).state == old(self).state,
            final(self).warning_events_spec() == old(self).warning_events_spec(),
    {
        let n = self.topic_handlers.len();
        let mut k: usize = 0;
        while k < n
            invariant
                n == self.topic_handlers@.len(),
                k <= n,
                *self == *old(self),
                forall|j: int| 0 <= j < k ==> self.topic_handlers@[j].0@ != topic@,
            decreases n - k,
        {
            if self.topic_handlers[k].0 == *topic {
                return self.topic_handlers[k].1.clone();
            }
            k += 1;
        }
        let mut s = String::from_str(self.actor_id.as_str());
        s.append(".");
        s.append(topic.as_str());
        let h = HandlerId::new(s);
        self.topic_handlers.push((topic.clone(), h.clone()));
        proof {
            assert(final(self).topic_handlers_spec().subrange(
                0,
                old(self).topic_handlers_spec().len() as int,
            ) =~= old(self).topic_handlers_spec());
            assert((#[trigger] final(self).topic_handlers_spec()[old(
                self,
            ).topic_handlers_spec().len() as int]).0@ == topic@);
            let t1 = final(self).topic_handlers_spec();
            let t0 = old(self).topic_handlers_spec();
            assert(t1 =~= t0.push((final(self).topic_handlers_spec().last())));
            assert(t1.last().1@ == handler_id_spec(old(self).actor_id@, topic@));
            assert forall|i: int, j: int|
                0 <= i < j < t1.len() implies t1[i].0@ != t1[j].0@ by {
                if j < t0.len() {
                    assert(t1[i] == t0[i] && t1[j] == t0[j]);
                    assert(t0[i].0@ != t0[j].0@);
                } else {
                    assert(t1[j].0@ == topic@);
                    assert(t1[i] == t0[i]);
                }
            }
            assert forall|i: int|
                0 <= i < t1.len() implies (#[trigger] t1[i]).1@ == handler_id_spec(
                final(self).actor_id@,
                t1[i].0@,
            ) by {
                if i < t0.len() {
                    assert(t1[i] == t0[i]);
                    assert(t0[i].1@ == handler_id_spec(old(self).actor_id@, t0[i].0@));
                } else {
                    assert(t1[i] == t1.last());
                }
            }
            assert forall|i: int, j: int|
                0 <= i < j < self.warning_events_spec().len() implies (
            #[trigger] self.warning_events_spec()[i]) != (
            #[trigger] self.warning_events_spec()[j]) by {
                assert(old(self).warning_events_spec()[i] != old(
                    self,
                ).warning_events_spec()[j]);
            }
        }
        h
    }

    /// The handler the actor stored for `topic`, if it ever subscribed.
    #[verifier::loop_isolation(false)]
    fn get_handler_for_topic(&self, topic: &Topic) -> (r: Option<HandlerId>)
        requires
            self.wf(),
        ensures
            match r {
                Some(h) => has_key(self.topic_handlers_spec(), topic@) && h@ == handler_id_spec(
                    self.actor_id@,
                    topic@,
                ),
                None => !has_key(self.topic_handlers_spec(), topic@),
            },
    {
        let n = self.topic_handlers.len();
        let mut k: usize = 0;
        while k < n
            invariant
                n == self.topic_handlers@.len(),
                k <= n,
                forall|j: int| 0 <= j < k ==> self.topic_handlers@[j].0@ != topic@,
            decreases n - k,
        {
            if self.topic_handlers[k].0 == *topic {
                return Some(self.topic_handlers[k].1.clone());
            }
            k += 1;
        }
        None
    }


    /// Builds a shutdown command from the actor's identity and resolves the
    /// handler registered at the well-known shutdown endpoint. With no
    /// handler there the command is dropped by the runner, with a warning —
    /// a deliberate best-effort policy.
    pub fn shutdown_system(&self, bus: &MessageBus, clock: &Clock, reason: Option<String>) -> (r:
        Result<(ShutdownSystem, Option<HandlerId>), ActorError>)
        ensures
            match r {
                Ok((cmd, h)) => {
                    &&& self.is_registered()
                    &&& self.trader_id == Some(cmd.trader_id)
                    &&& cmd.component_id@ == self.actor_id@
                    &&& cmd.reason == reason
                    &&& cmd.ts_init == clock.time_ns()
                    &&& (match h {
                        Some(hid) => endpoint_handler(
                            bus.endpoints@,
                            "command.system.shutdown"@,
                        ) matches Some(h2) && h2@ == hid@,
                        None => (endpoint_handler(bus.endpoints@, "command.system.shutdown"@)
                            is None),
                    })
                },
                Err(e) => {
                    &&& e == ActorError::NotRegistered
                    &&& !self.is_registered()
                },
            },
    {
        let trader_id = match &self.trader_id {
            Some(t) => t.clone(),
            None => {
                return Err(ActorError::NotRegistered);
            },
        };
        let cmd = ShutdownSystem {
            trader_id,
            component_id: String::from_str(self.actor_id.as_str()),
            reason,
            command_id: Uuid4::generate(),
            ts_init: clock.timestamp_ns(),
        };
        let endpoint = Endpoint::new(String::from_str("command.system.shutdown"));
        let handler = bus.send_any(&endpoint);
        Ok((cmd, handler))
    }

    /// Subscribes the actor to quotes for the instrument: its handler for
    /// the quotes topic is created once and registered on the bus once —
    /// subscribing twice leaves one map entry and one bus subscription.
    /// Only when a client id names the owning engine client is a quotes
    /// subscription command also queued for the data engine; without one
    /// the subscription is purely local. An unregistered actor must not
    /// subscribe: that fails explicitly.
    pub fn subscribe_quotes(
        &mut self,
        bus: &mut MessageBus,
        switchboard: &mut MessagingSwitchboard,
        cmds: &mut DataCommandQueue,
        clock: &Clock,
        instrument_id: InstrumentId,
        client_id: Option<ClientId>,
        params: Option<Vec<(String, String)>>,
    ) -> (r: Result<(), ActorError>)
        requires
            old(self).wf(),
            old(bus).wf(),
            old(switchboard).wf(),
        ensures
            final(self).wf(),
            final(bus).wf(),
            final(switchboard).wf(),
            ({
                let t = quotes_topic_spec(instrument_id.venue@, instrument_id.symbol@);
                let h = handler_id_spec(old(self).actor_id@, t);
                match r {
                    Ok(()) => {
                        &&& old(self).is_registered()
                        &&& (has_key(old(self).topic_handlers_spec(), t) ==> final(self).topic_handlers_spec() == old(self).topic_handlers_spec())
                        &&& (!has_key(old(self).topic_handlers_spec(), t) ==> final(self).topic_handlers_spec().len() == old(self).topic_handlers_spec().len() + 1)
                        &&& has_key(final(self).topic_handlers_spec(), t)
                        &&& final(self).actor_id == old(self).actor_id
                        &&& final(self).trader_id == old(self).trader_id
                        &&& final(self).state == old(self).state
                        &&& has_handler(final(bus).topic_subs(t), h)
                        &&& final(bus).topic_subs(t).len() == old(bus).topic_subs(t).len() + (
                        if has_handler(old(bus).topic_subs(t), h) {
                            0int
                        } else {
                            1int
                        })
                        &&& (forall|t2: Seq<char>|
                            t2 != t ==> final(bus).topic_subs(t2) == old(bus).topic_subs(t2))
                        &&& final(bus).endpoints == old(bus).endpoints
                        &&& final(bus).correlations == old(bus).correlations
                        &&& (client_id is Some ==> {
                            &&& final(cmds).commands@.len() == old(cmds).commands@.len() + 1
                            &&& final(cmds).commands@.subrange(0, old(cmds).commands@.len() as int)
                                == old(cmds).commands@
                            &&& (final(cmds).commands@.last() matches DataCommand::Subscribe(
                                SubscribeCommand::Quotes(c),
                            ) && c.instrument_id == instrument_id && c.client_id == client_id
                                && c.venue == Some(instrument_id.venue) && c.ts_init == clock.time_ns()
                                && c.params == params)
                        })
                        &&& (client_id is None ==> *final(cmds) == *old(cmds))
                    },
                    Err(e) => {
                        &&& e == ActorError::NotRegistered
                        &&& !old(self).is_registered()
                        &&& *final(self) == *old(self)
                        &&& *final(bus) == *old(bus)
                        &&& *final(switchboard) == *old(switchboard)
                        &&& *final(cmds) == *old(cmds)
                    },
                }
            }),
    {
        if self.trader_id.is_none() {
            return Err(ActorError::NotRegistered);
        }
        let topic = switchboard.get_quotes_topic(instrument_id.clone());
        let handler = self.get_or_create_handler_for_topic(&topic);
        let ghost subs0 = bus.topic_subs(topic@);
        let ghost subv = Subscription { handler: handler, priority: 0u8 };
        bus.subscribe_topic(topic, handler, 0);
        proof {
            if !has_handler(subs0, subv.handler@) {
                lemma_insert_sub_has_handler(subs0, subv);
            }
        }
        if client_id.is_none() {
            return Ok(());
        }
        let venue = Some(instrument_id.venue.clone());
        let command = SubscribeQuotes::new(
            instrument_id,
            client_id,
            venue,
            Uuid4::generate(),
            clock.timestamp_ns(),
            params,
        );
        cmds.push(DataCommand::Subscribe(SubscribeCommand::Quotes(command)));
        Ok(())
    }

    /// Unsubscribes the actor from quotes for the instrument: exactly the
    /// handler it had stored for the topic is removed from the bus — with no
    /// prior subscription this is a no-op, not an error. Only when a client
    /// id names the owning engine client is an unsubscription command also
    /// queued for the data engine.
    pub fn unsubscribe_quotes(
        &self,
        bus: &mut MessageBus,
        switchboard: &mut MessagingSwitchboard,
        cmds: &mut DataCommandQueue,
        clock: &Clock,
        instrument_id: InstrumentId,
        client_id: Option<ClientId>,
        params: Option<Vec<(String, String)>>,
    ) -> (r: Result<(), ActorError>)
        requires
            self.wf(),
            old(bus).wf(),
            old(switchboard).wf(),
        ensures
            final(bus).wf(),
            final(switchboard).wf(),
            ({
                let t = quotes_topic_spec(instrument_id.venue@, instrument_id.symbol@);
                let h = handler_id_spec(self.actor_id@, t);
                match r {
                    Ok(()) => {
                        &&& self.is_registered()
                        &&& (has_key(self.topic_handlers_spec(), t) ==> final(bus).topic_subs(t)
                            == remove_sub(old(bus).topic_subs(t), h))
                        &&& (!has_key(self.topic_handlers_spec(), t) ==> final(bus).topic_subs(t)
                            == old(bus).topic_subs(t))
                        &&& (forall|t2: Seq<char>|
                            t2 != t ==> final(bus).topic_subs(t2) == old(bus).topic_subs(t2))
                        &&& final(bus).endpoints == old(bus).endpoints
                        &&& final(bus).correlations == old(bus).correlations
                        &&& (client_id is Some ==> {
                            &&& final(cmds).commands@.len() == old(cmds).commands@.len() + 1
                            &&& final(cmds).commands@.subrange(0, old(cmds).commands@.len() as int)
                                == old(cmds).commands@
                            &&& (final(cmds).commands@.last() matches DataCommand::Unsubscribe(
                                UnsubscribeCommand::Quotes(c),
                            ) && c.instrument_id == instrument_id && c.client_id == client_id
                                && c.venue == Some(instrument_id.venue) && c.ts_init == clock.time_ns()
                                && c.params == params)
                        })
                        &&& (client_id is None ==> *final(cmds) == *old(cmds))
                    },
                    Err(e) => {
                        &&& e == ActorError::NotRegistered
                        &&& !self.is_registered()
                        &&& *final(bus) == *old(bus)
                        &&& *final(switchboard) == *old(switchboard)
                        &&& *final(cmds) == *old(cmds)
                    },
                }
            }),
    {
        if self.trader_id.is_none() {
            return Err(ActorError::NotRegistered);
        }
        let topic = switchboard.get_quotes_topic(instrument_id.clone());
        match self.get_handler_for_topic(&topic) {
            Some(handler) => {
                bus.unsubscribe_topic(&topic, &handler);
            },
            None => {},
        }
        if client_id.is_none() {
            return Ok(());
        }
        let venue = Some(instrument_id.venue.clone());
        let command = UnsubscribeQuotes::new(
            instrument_id,
            client_id,
            venue,
            Uuid4::generate(),
            clock.timestamp_ns(),
            params,
        );
        cmds.push(DataCommand::Unsubscribe(UnsubscribeCommand::Quotes(command)));
        Ok(())
    }

    /// Requests historical quotes: the time bounds are validated against the
    /// clock, a fresh correlation id is drawn, the actor's one-shot response
    /// handler is registered under it, and the request command is queued for
    /// the data engine. At most one response will ever be delivered for the
    /// returned id, to exactly the handler registered here.
    pub fn request_quotes(
        &self,
        bus: &mut MessageBus,
        cmds: &mut DataCommandQueue,
        clock: &Clock,
        instrument_id: InstrumentId,
        start: Option<u64>,
        end: Option<u64>,
        limit: Option<usize>,
        client_id: Option<ClientId>,
        params: Option<Vec<(String, String)>>,
    ) -> (r: Result<Uuid4, ActorError>)
        requires
            self.wf(),
            old(bus).wf(),
            limit matches Some(l) ==> l > 0,
        ensures
            final(bus).wf(),
            ({
                let h = handler_id_spec(self.actor_id@, "quotes"@);
                match r {
                    Ok(rid) => {
                        &&& self.is_registered()
                        &&& time_range_ok(start, end, clock.time_ns())
                        &&& !has_correlation(old(bus).correlations@, rid)
                        &&& final(bus).correlations@.len() == old(bus).correlations@.len() + 1
                        &&& final(bus).correlations@.subrange(
                            0,
                            old(bus).correlations@.len() as int,
                        ) == old(bus).correlations@
                        &&& final(bus).correlations@.last().0 == rid
                        &&& final(bus).correlations@.last().1@ == h
                        &&& final(bus).subscriptions == old(bus).subscriptions
                        &&& final(bus).endpoints == old(bus).endpoints
                        &&& final(cmds).commands@.len() == old(cmds).commands@.len() + 1
                        &&& final(cmds).commands@.subrange(0, old(cmds).commands@.len() as int)
                            == old(cmds).commands@
                        &&& (final(cmds).commands@.last() matches DataCommand::Request(
                            RequestCommand::Quotes(c),
                        ) && c.instrument_id == instrument_id && c.start == start && c.end == end
                            && c.limit == limit && c.client_id == client_id && c.request_id == rid
                            && c.ts_init == clock.time_ns() && c.params == params)
                    },
                    Err(e) => {
                        &&& *final(bus) == *old(bus)
                        &&& *final(cmds) == *old(cmds)
                        &&& (e == ActorError::NotRegistered <==> !self.is_registered())
                        &&& (e == ActorError::InvalidTimeRange ==> self.is_registered()
                            && !time_range_ok(start, end, clock.time_ns()))
                        &&& (self.is_registered() && !time_range_ok(start, end, clock.time_ns())
                            ==> e == ActorError::InvalidTimeRange)
                        &&& (e matches ActorError::DuplicateRequestId(rid) ==> self.is_registered()
                            && time_range_ok(start, end, clock.time_ns()) && has_correlation(
                            old(bus).correlations@,
                            rid,
                        ))
                        &&& (self.is_registered() && time_range_ok(start, end, clock.time_ns())
                            ==> (e matches ActorError::DuplicateRequestId(rid) && has_correlation(
                            old(bus).correlations@,
                            rid,
                        )))
                    },
                }
            }),
    {
        if self.trader_id.is_none() {
            return Err(ActorError::NotRegistered);
        }
        let now = clock.timestamp_ns();
        if !check_time_range(start, end, now) {
            return Err(ActorError::InvalidTimeRange);
        }
        let request_id = Uuid4::generate();
        let mut s = String::from_str(self.actor_id.as_str());
        s.append(".");
        s.append("quotes");
        let handler = HandlerId::new(s);
        match bus.register_response_handler(request_id, handler) {
            Ok(()) => {},
            Err(_) => {
                return Err(ActorError::DuplicateRequestId(request_id));
            },
        }
        let command = RequestQuotes::new(
            instrument_id,
            start,
            end,
            limit,
            client_id,
            request_id,
            now,
            params,
        );
        cmds.push(DataCommand::Request(RequestCommand::Quotes(command)));
        Ok(request_id)
    }

    /// Subscribes the actor to custom data of the given type: its handler for the topic is
    /// created once and registered on the bus once — subscribing twice
    /// leaves one map entry and one bus subscription. Only when a client id
    /// names the owning engine client is the subscription command also
    /// queued for the data engine; without one the subscription is purely
    /// local. An unregistered actor must not subscribe: that fails
    /// explicitly.
    pub fn subscribe_data(
        &mut self,
        bus: &mut MessageBus,
        switchboard: &mut MessagingSwitchboard,
        cmds: &mut DataCommandQueue,
        clock: &Clock,
        data_type: DataType,
        client_id: Option<ClientId>,
        params: Option<Vec<(String, String)>>,
    ) -> (r: Result<(), ActorError>)
        requires
            old(self).wf(),
            old(bus).wf(),
            old(switchboard).wf(),
        ensures
            final(self).wf(),
            final(bus).wf(),
            final(switchboard).wf(),
            ({
                let t = custom_topic_spec(data_type@);
                let h = handler_id_spec(old(self).actor_id@, t);
                match r {
                    Ok(()) => {
                        &&& old(self).is_registered()
                        &&& (has_key(old(self).topic_handlers_spec(), t) ==> final(self).topic_handlers_spec() == old(self).topic_handlers_spec())
                        &&& (!has_key(old(self).topic_handlers_spec(), t) ==> final(self).topic_handlers_spec().len() == old(self).topic_handlers_spec().len() + 1)
                        &&& has_key(final(self).topic_handlers_spec(), t)
                        &&& final(self).actor_id == old(self).actor_id
                        &&& final(self).trader_id == old(self).trader_id
                        &&& final(self).state == old(self).state
                        &&& has_handler(final(bus).topic_subs(t), h)
                        &&& final(bus).topic_subs(t).len() == old(bus).topic_subs(t).len() + (
                        if has_handler(old(bus).topic_subs(t), h) {
                            0int
                        } else {
                            1int
                        })
                        &&& (forall|t2: Seq<char>|
                            t2 != t ==> final(bus).topic_subs(t2) == old(bus).topic_subs(t2))
                        &&& final(bus).endpoints == old(bus).endpoints
                        &&& final(bus).correlations == old(bus).correlations
                        &&& (client_id is Some ==> {
                            &&& final(cmds).commands@.len() == old(cmds).commands@.len() + 1
                            &&& final(cmds).commands@.subrange(
                                0,
                                old(cmds).commands@.len() as int,
                            ) == old(cmds).commands@
                            &&& (final(cmds).commands@.last() matches DataCommand::Subscribe(
                                SubscribeCommand::Data(c),
                            ) && c.data_type == data_type && c.client_id == client_id && (c.venue is None) && c.ts_init == clock.time_ns() && c.params
                                == params)
                        })
                        &&& (client_id is None ==> *final(cmds) == *old(cmds))
                    },
                    Err(e) => {
                        &&& e == ActorError::NotRegistered
                        &&& !old(self).is_registered()
                        &&& *final(self) == *old(self)
                        &&& *final(bus) == *old(bus)
                        &&& *final(switchboard) == *old(switchboard)
                        &&& *final(cmds) == *old(cmds)
                    },
                }
            }),
    {
        if self.trader_id.is_none() {
            return Err(ActorError::NotRegistered);
        }
        let topic = switchboard.get_custom_topic(data_type.clone());
        let handler = self.get_or_create_handler_for_topic(&topic);
        let ghost subs0 = bus.topic_subs(topic@);
        let ghost subv = Subscription { handler: handler, priority: 0u8 };
        bus.subscribe_topic(topic, handler, 0);
        proof {
            if !has_handler(subs0, subv.handler@) {
                lemma_insert_sub_has_handler(subs0, subv);
            }
        }
        if client_id.is_none() {
            return Ok(());
        }
        let command = SubscribeData::new(client_id, None, data_type, Uuid4::generate(), clock.timestamp_ns(), params);
        cmds.push(DataCommand::Subscribe(SubscribeCommand::Data(command)));
        Ok(())
    }

    /// Subscribes the actor to all instrument definitions of the venue: its handler for the topic is
    /// created once and registered on the bus once — subscribing twice
    /// leaves one map entry and one bus subscription. Only when a client id
    /// names the owning engine client is the subscription command also
    /// queued for the data engine; without one the subscription is purely
    /// local. An unregistered actor must not subscribe: that fails
    /// explicitly.
    pub fn subscribe_instruments(
        &mut self,
        bus: &mut MessageBus,
        switchboard: &mut MessagingSwitchboard,
        cmds: &mut DataCommandQueue,
        clock: &Clock,
        venue: Venue,
        client_id: Option<ClientId>,
        params: Option<Vec<(String, String)>>,
    ) -> (r: Result<(), ActorError>)
        requires
            old(self).wf(),
            old(bus).wf(),
            old(switchboard).wf(),
        ensures
            final(self).wf(),
            final(bus).wf(),
            final(switchboard).wf(),
            ({
                let t = instruments_topic_spec(venue@);
                let h = handler_id_spec(old(self).actor_id@, t);
                match r {
                    Ok(()) => {
                        &&& old(self).is_registered()
                        &&& (has_key(old(self).topic_handlers_spec(), t) ==> final(self).topic_handlers_spec() == old(self).topic_handlers_spec())
                        &&& (!has_key(old(self).topic_handlers_spec(), t) ==> final(self).topic_handlers_spec().len() == old(self).topic_handlers_spec().len() + 1)
                        &&& has_key(final(self).topic_handlers_spec(), t)
                        &&& final(self).actor_id == old(self).actor_id
                        &&& final(self).trader_id == old(self).trader_id
                        &&& final(self).state == old(self).state
                        &&& has_handler(final(bus).topic_subs(t), h)
                        &&& final(bus).topic_subs(t).len() == old(bus).topic_subs(t).len() + (
                        if has_handler(old(bus).topic_subs(t), h) {
                            0int
                        } else {
                            1int
                        })
                        &&& (forall|t2: Seq<char>|
                            t2 != t ==> final(bus).topic_subs(t2) == old(bus).topic_subs(t2))
                        &&& final(bus).endpoints == old(bus).endpoints
                        &&& final(bus).correlations == old(bus).correlations
                        &&& (client_id is Some ==> {
                            &&& final(cmds).commands@.len() == old(cmds).commands@.len() + 1
                            &&& final(cmds).commands@.subrange(0, old(cmds).commands@.len() as int)
                                == old(cmds).commands@
                            &&& (final(cmds).commands@.last() matches DataCommand::Subscribe(
                                SubscribeCommand::Instruments(c),
                            ) && c.venue == venue && c.client_id == client_id && c.ts_init == clock.time_ns() && c.params == params)
                        })
                        &&& (client_id is None ==> *final(cmds) == *old(cmds))
                    },
                    Err(e) => {
                        &&& e == ActorError::NotRegistered
                        &&& !old(self).is_registered()
                        &&& *final(self) == *old(self)
                        &&& *final(bus) == *old(bus)
                        &&& *final(switchboard) == *old(switchboard)
                        &&& *final(cmds) == *old(cmds)
                    },
                }
            }),
    {
        if self.trader_id.is_none() {
            return Err(ActorError::NotRegistered);
        }
        let topic = switchboard.get_instruments_topic(venue.clone());
        let handler = self.get_or_create_handler_for_topic(&topic);
        let ghost subs0 = bus.topic_subs(topic@);
        let ghost subv = Subscription { handler: handler, priority: 0u8 };
        bus.subscribe_topic(topic, handler, 0);
        proof {
            if !has_handler(subs0, subv.handler@) {
                lemma_insert_sub_has_handler(subs0, subv);
            }
        }
        if client_id.is_none() {
            return Ok(());
        }
        let command = SubscribeInstruments::new(client_id, venue, Uuid4::generate(), clock.timestamp_ns(), params);
        cmds.push(DataCommand::Subscribe(SubscribeCommand::Instruments(command)));
        Ok(())
    }

    /// Subscribes the actor to the instrument's definition updates: its handler for the topic is
    /// created once and registered on the bus once — subscribing twice
    /// leaves one map entry and one bus subscription. Only when a client id
    /// names the owning engine client is the subscription command also
    /// queued for the data engine; without one the subscription is purely
    /// local. An unregistered actor must not subscribe: that fails
    /// explicitly.
    pub fn subscribe_instrument(
        &mut self,
        bus: &mut MessageBus,
        switchboard: &mut MessagingSwitchboard,
        cmds: &mut DataCommandQueue,
        clock: &Clock,
        instrument_id: InstrumentId,
        client_id: Option<ClientId>,
        params: Option<Vec<(String, String)>>,
    ) -> (r: Result<(), ActorError>)
        requires
            old(self).wf(),
            old(bus).wf(),
            old(switchboard).wf(),
        ensures
            final(self).wf(),
            final(bus).wf(),
            final(switchboard).wf(),
            ({
                let t = instrument_topic_spec(instrument_id.venue@, instrument_id.symbol@);
                let h = handler_id_spec(old(self).actor_id@, t);
                match r {
                    Ok(()) => {
                        &&& old(self).is_registered()
                        &&& (has_key(old(self).topic_handlers_spec(), t) ==> final(self).topic_handlers_spec() == old(self).topic_handlers_spec())
                        &&& (!has_key(old(self).topic_handlers_spec(), t) ==> final(self).topic_handlers_spec().len() == old(self).topic_handlers_spec().len() + 1)
                        &&& has_key(final(self).topic_handlers_spec(), t)
                        &&& final(self).actor_id == old(self).actor_id
                        &&& final(self).trader_id == old(self).trader_id
                        &&& final(self).state == old(self).state
                        &&& has_handler(final(bus).topic_subs(t), h)
                        &&& final(bus).topic_subs(t).len() == old(bus).topic_subs(t).len() + (
                        if has_handler(old(bus).topic_subs(t), h) {
                            0int
                        } else {
                            1int
                        })
                        &&& (forall|t2: Seq<char>|
                            t2 != t ==> final(bus).topic_subs(t2) == old(bus).topic_subs(t2))
                        &&& final(bus).endpoints == old(bus).endpoints
                        &&& final(bus).correlations == old(bus).correlations
                        &&& (client_id is Some ==> {
                            &&& final(cmds).commands@.len() == old(cmds).commands@.len() + 1
                            &&& final(cmds).commands@.subrange(0, old(cmds).commands@.len() as int)
                                == old(cmds).commands@
                            &&& (final(cmds).commands@.last() matches DataCommand::Subscribe(
                                SubscribeCommand::Instrument(c),
                            ) && c.instrument_id == instrument_id && c.client_id == client_id && c.venue == Some(instrument_id.venue) && c.ts_init == clock.time_ns() && c.params == params)
                        })
                        &&& (client_id is None ==> *final(cmds) == *old(cmds))
                    },
                    Err(e) => {
                        &&& e == ActorError::NotRegistered
                        &&& !old(self).is_registered()
                        &&& *final(self) == *old(self)
                        &&& *final(bus) == *old(bus)
                        &&& *final(switchboard) == *old(switchboard)
                        &&& *final(cmds) == *old(cmds)
                    },
                }
            }),
    {
        if self.trader_id.is_none() {
            return Err(ActorError::NotRegistered);
        }
        let topic = switchboard.get_instrument_topic(instrument_id.clone());
        let handler = self.get_or_create_handler_for_topic(&topic);
        let ghost subs0 = bus.topic_subs(topic@);
        let ghost subv = Subscription { handler: handler, priority: 0u8 };
        bus.subscribe_topic(topic, handler, 0);
        proof {
            if !has_handler(subs0, subv.handler@) {
                lemma_insert_sub_has_handler(subs0, subv);
            }
        }
        if client_id.is_none() {
            return Ok(());
        }
        let venue = Some(instrument_id.venue.clone());
        let command = SubscribeInstrument::new(instrument_id, client_id, venue, Uuid4::generate(), clock.timestamp_ns(), params);
        cmds.push(DataCommand::Subscribe(SubscribeCommand::Instrument(command)));
        Ok(())
    }

    /// Subscribes the actor to order book deltas of the instrument: its handler for the topic is
    /// created once and registered on the bus once — subscribing twice
    /// leaves one map entry and one bus subscription. Only when a client id
    /// names the owning engine client is the subscription command also
    /// queued for the data engine; without one the subscription is purely
    /// local. An unregistered actor must not subscribe: that fails
    /// explicitly.
    pub fn subscribe_book_deltas(
        &mut self,
        bus: &mut MessageBus,
        switchboard: &mut MessagingSwitchboard,
        cmds: &mut DataCommandQueue,
        clock: &Clock,
        instrument_id: InstrumentId,
        book_type: BookType,
        depth: Option<usize>,
        managed: bool,
        client_id: Option<ClientId>,
        params: Option<Vec<(String, String)>>,
    ) -> (r: Result<(), ActorError>)
        requires
            old(self).wf(),
            old(bus).wf(),
            old(switchboard).wf(),
            depth matches Some(d) ==> d > 0,
        ensures
            final(self).wf(),
            final(bus).wf(),
            final(switchboard).wf(),
            ({
                let t = book_deltas_topic_spec(instrument_id.venue@, instrument_id.symbol@);
                let h = handler_id_spec(old(self).actor_id@, t);
                match r {
                    Ok(()) => {
                        &&& old(self).is_registered()
                        &&& (has_key(old(self).topic_handlers_spec(), t) ==> final(self).topic_handlers_spec() == old(self).topic_handlers_spec())
                        &&& (!has_key(old(self).topic_handlers_spec(), t) ==> final(self).topic_handlers_spec().len() == old(self).topic_handlers_spec().len() + 1)
                        &&& has_key(final(self).topic_handlers_spec(), t)
                        &&& final(self).actor_id == old(self).actor_id
                        &&& final(self).trader_id == old(self).trader_id
                        &&& final(self).state == old(self).state
                        &&& has_handler(final(bus).topic_subs(t), h)
                        &&& final(bus).topic_subs(t).len() == old(bus).topic_subs(t).len() + (
                        if has_handler(old(bus).topic_subs(t), h) {
                            0int
                        } else {
                            1int
                        })
                        &&& (forall|t2: Seq<char>|
                            t2 != t ==> final(bus).topic_subs(t2) == old(bus).topic_subs(t2))
                        &&& final(bus).endpoints == old(bus).endpoints
                        &&& final(bus).correlations == old(bus).correlations
                        &&& (client_id is Some ==> {
                            &&& final(cmds).commands@.len() == old(cmds).commands@.len() + 1
                            &&& final(cmds).commands@.subrange(0, old(cmds).commands@.len() as int)
                                == old(cmds).commands@
                            &&& (final(cmds).commands@.last() matches DataCommand::Subscribe(
                                SubscribeCommand::BookDeltas(c),
                            ) && c.instrument_id == instrument_id && c.book_type == book_type && c.client_id == client_id && c.venue == Some(instrument_id.venue) && c.depth == depth && c.managed == managed && c.ts_init == clock.time_ns() && c.params == params)
                        })
                        &&& (client_id is None ==> *final(cmds) == *old(cmds))
                    },
                    Err(e) => {
                        &&& e == ActorError::NotRegistered
                        &&& !old(self).is_registered()
                        &&& *final(self) == *old(self)
                        &&& *final(bus) == *old(bus)
                        &&& *final(switchboard) == *old(switchboard)
                        &&& *final(cmds) == *old(cmds)
                    },
                }
            }),
    {
        if self.trader_id.is_none() {
            return Err(ActorError::NotRegistered);
        }
        let topic = switchboard.get_book_deltas_topic(instrument_id.clone());
        let handler = self.get_or_create_handler_for_topic(&topic);
        let ghost subs0 = bus.topic_subs(topic@);
        let ghost subv = Subscription { handler: handler, priority: 0u8 };
        bus.subscribe_topic(topic, handler, 0);
        proof {
            if !has_handler(subs0, subv.handler@) {
                lemma_insert_sub_has_handler(subs0, subv);
            }
        }
        if client_id.is_none() {
            return Ok(());
        }
        let venue = Some(instrument_id.venue.clone());
        let command = SubscribeBookDeltas::new(instrument_id, book_type, client_id, venue, depth, managed, Uuid4::generate(), clock.timestamp_ns(), params);
        cmds.push(DataCommand::Subscribe(SubscribeCommand::BookDeltas(command)));
        Ok(())
    }

    /// Subscribes the actor to periodic book snapshots of the instrument: its handler for the topic is
    /// created once and registered on the bus once — subscribing twice
    /// leaves one map entry and one bus subscription. Only when a client id
    /// names the owning engine client is the subscription command also
    /// queued for the data engine; without one the subscription is purely
    /// local. An unregistered actor must not subscribe: that fails
    /// explicitly.
    pub fn subscribe_book_at_interval(
        &mut self,
        bus: &mut MessageBus,
        switchboard: &mut MessagingSwitchboard,
        cmds: &mut DataCommandQueue,
        clock: &Clock,
        instrument_id: InstrumentId,
        book_type: BookType,
        depth: Option<usize>,
        interval_ms: usize,
        client_id: Option<ClientId>,
        params: Option<Vec<(String, String)>>,
    ) -> (r: Result<(), ActorError>)
        requires
            old(self).wf(),
            old(bus).wf(),
            old(switchboard).wf(),
            depth matches Some(d) ==> d > 0,
            interval_ms > 0,
        ensures
            final(self).wf(),
            final(bus).wf(),
            final(switchboard).wf(),
            ({
                let t = book_snapshots_topic_spec(instrument_id.venue@, instrument_id.symbol@);
                let h = handler_id_spec(old(self).actor_id@, t);
                match r {
                    Ok(()) => {
                        &&& old(self).is_registered()
                        &&& (has_key(old(self).topic_handlers_spec(), t) ==> final(self).topic_handlers_spec() == old(self).topic_handlers_spec())
                        &&& (!has_key(old(self).topic_handlers_spec(), t) ==> final(self).topic_handlers_spec().len() == old(self).topic_handlers_spec().len() + 1)
                        &&& has_key(final(self).topic_handlers_spec(), t)
                        &&& final(self).actor_id == old(self).actor_id
                        &&& final(self).trader_id == old(self).trader_id
                        &&& final(self).state == old(self).state
                        &&& has_handler(final(bus).topic_subs(t), h)
                        &&& final(bus).topic_subs(t).len() == old(bus).topic_subs(t).len() + (
                        if has_handler(old(bus).topic_subs(t), h) {
                            0int
                        } else {
                            1int
                        })
                        &&& (forall|t2: Seq<char>|
                            t2 != t ==> final(bus).topic_subs(t2) == old(bus).topic_subs(t2))
                        &&& final(bus).endpoints == old(bus).endpoints
                        &&& final(bus).correlations == old(bus).correlations
                        &&& (client_id is Some ==> {
                            &&& final(cmds).commands@.len() == old(cmds).commands@.len() + 1
                            &&& final(cmds).commands@.subrange(0, old(cmds).commands@.len() as int)
                                == old(cmds).commands@
                            &&& (final(cmds).commands@.last() matches DataCommand::Subscribe(
                                SubscribeCommand::BookSnapshots(c),
                            ) && c.instrument_id == instrument_id && c.book_type == book_type && c.client_id == client_id && c.venue == Some(instrument_id.venue) && c.depth == depth && c.interval_ms == interval_ms && c.ts_init == clock.time_ns() && c.params == params)
                        })
                        &&& (client_id is None ==> *final(cmds) == *old(cmds))
                    },
                    Err(e) => {
                        &&& e == ActorError::NotRegistered
                        &&& !old(self).is_registered()
                        &&& *final(self) == *old(self)
                        &&& *final(bus) == *old(bus)
                        &&& *final(switchboard) == *old(switchboard)
                        &&& *final(cmds) == *old(cmds)
                    },
                }
            }),
    {
        if self.trader_id.is_none() {
            return Err(ActorError::NotRegistered);
        }
        let topic = switchboard.get_book_snapshots_topic(instrument_id.clone());
        let handler = self.get_or_create_handler_for_topic(&topic);
        let ghost subs0 = bus.topic_subs(topic@);
        let ghost subv = Subscription { handler: handler, priority: 0u8 };
        bus.subscribe_topic(topic, handler, 0);
        proof {
            if !has_handler(subs0, subv.handler@) {
                lemma_insert_sub_has_handler(subs0, subv);
            }
        }
        if client_id.is_none() {
            return Ok(());
        }
        let venue = Some(instrument_id.venue.clone());
        let command = SubscribeBookSnapshots::new(instrument_id, book_type, client_id, venue, depth, interval_ms, Uuid4::generate(), clock.timestamp_ns(), params);
        cmds.push(DataCommand::Subscribe(SubscribeCommand::BookSnapshots(command)));
        Ok(())
    }

    /// Subscribes the actor to trades of the instrument: its handler for the topic is
    /// created once and registered on the bus once — subscribing twice
    /// leaves one map entry and one bus subscription. Only when a client id
    /// names the owning engine client is the subscription command also
    /// queued for the data engine; without one the subscription is purely
    /// local. An unregistered actor must not subscribe: that fails
    /// explicitly.
    pub fn subscribe_trades(
        &mut self,
        bus: &mut MessageBus,
        switchboard: &mut MessagingSwitchboard,
        cmds: &mut DataCommandQueue,
        clock: &Clock,
        instrument_id: InstrumentId,
        client_id: Option<ClientId>,
        params: Option<Vec<(String, String)>>,
    ) -> (r: Result<(), ActorError>)
        requires
            old(self).wf(),
            old(bus).wf(),
            old(switchboard).wf(),
        ensures
            final(self).wf(),
            final(bus).wf(),
            final(switchboard).wf(),
            ({
                let t = trades_topic_spec(instrument_id.venue@, instrument_id.symbol@);
                let h = handler_id_spec(old(self).actor_id@, t);
                match r {
                    Ok(()) => {
                        &&& old(self).is_registered()
                        &&& (has_key(old(self).topic_handlers_spec(), t) ==> final(self).topic_handlers_spec() == old(self).topic_handlers_spec())
                        &&& (!has_key(old(self).topic_handlers_spec(), t) ==> final(self).topic_handlers_spec().len() == old(self).topic_handlers_spec().len() + 1)
                        &&& has_key(final(self).topic_handlers_spec(), t)
                        &&& final(self).actor_id == old(self).actor_id
                        &&& final(self).trader_id == old(self).trader_id
                        &&& final(self).state == old(self).state
                        &&& has_handler(final(bus).topic_subs(t), h)
                        &&& final(bus).topic_subs(t).len() == old(bus).topic_subs(t).len() + (
                        if has_handler(old(bus).topic_subs(t), h) {
                            0int
                        } else {
                            1int
                        })
                        &&& (forall|t2: Seq<char>|
                            t2 != t ==> final(bus).topic_subs(t2) == old(bus).topic_subs(t2))
                        &&& final(bus).endpoints == old(bus).endpoints
                        &&& final(bus).correlations == old(bus).correlations
                        &&& (client_id is Some ==> {
                            &&& final(cmds).commands@.len() == old(cmds).commands@.len() + 1
                            &&& final(cmds).commands@.subrange(0, old(cmds).commands@.len() as int)
                                == old(cmds).commands@
                            &&& (final(cmds).commands@.last() matches DataCommand::Subscribe(
                                SubscribeCommand::Trades(c),
                            ) && c.instrument_id == instrument_id && c.client_id == client_id && c.venue == Some(instrument_id.venue) && c.ts_init == clock.time_ns() && c.params == params)
                        })
                        &&& (client_id is None ==> *final(cmds) == *old(cmds))
                    },
                    Err(e) => {
                        &&& e == ActorError::NotRegistered
                        &&& !old(self).is_registered()
                        &&& *final(self) == *old(self)
                        &&& *final(bus) == *old(bus)
                        &&& *final(switchboard) == *old(switchboard)
                        &&& *final(cmds) == *old(cmds)
                    },
                }
            }),
    {
        if self.trader_id.is_none() {
            return Err(ActorError::NotRegistered);
        }
        let topic = switchboard.get_trades_topic(instrument_id.clone());
        let handler = self.get_or_create_handler_for_topic(&topic);
        let ghost subs0 = bus.topic_subs(topic@);
        let ghost subv = Subscription { handler: handler, priority: 0u8 };
        bus.subscribe_topic(topic, handler, 0);
        proof {
            if !has_handler(subs0, subv.handler@) {
                lemma_insert_sub_has_handler(subs0, subv);
            }
        }
        if client_id.is_none() {
            return Ok(());
        }
        let venue = Some(instrument_id.venue.clone());
        let command = SubscribeTrades::new(instrument_id, client_id, venue, Uuid4::generate(), clock.timestamp_ns(), params);
        cmds.push(DataCommand::Subscribe(SubscribeCommand::Trades(command)));
        Ok(())
    }

    /// Subscribes the actor to bars of the bar type: its handler for the topic is
    /// created once and registered on the bus once — subscribing twice
    /// leaves one map entry and one bus subscription. Only when a client id
    /// names the owning engine client is the subscription command also
    /// queued for the data engine; without one the subscription is purely
    /// local. An unregistered actor must not subscribe: that fails
    /// explicitly.
    pub fn subscribe_bars(
        &mut self,
        bus: &mut MessageBus,
        switchboard: &mut MessagingSwitchboard,
        cmds: &mut DataCommandQueue,
        clock: &Clock,
        bar_type: BarType,
        await_partial: bool,
        client_id: Option<ClientId>,
        params: Option<Vec<(String, String)>>,
    ) -> (r: Result<(), ActorError>)
        requires
            old(self).wf(),
            old(bus).wf(),
            old(switchboard).wf(),
        ensures
            final(self).wf(),
            final(bus).wf(),
            final(switchboard).wf(),
            ({
                let t = bars_topic_spec(bar_type.instrument_id.symbol@, bar_type.instrument_id.venue@, bar_type.spec@);
                let h = handler_id_spec(old(self).actor_id@, t);
                match r {
                    Ok(()) => {
                        &&& old(self).is_registered()
                        &&& (has_key(old(self).topic_handlers_spec(), t) ==> final(self).topic_handlers_spec() == old(self).topic_handlers_spec())
                        &&& (!has_key(old(self).topic_handlers_spec(), t) ==> final(self).topic_handlers_spec().len() == old(self).topic_handlers_spec().len() + 1)
                        &&& has_key(final(self).topic_handlers_spec(), t)
                        &&& final(self).actor_id == old(self).actor_id
                        &&& final(self).trader_id == old(self).trader_id
                        &&& final(self).state == old(self).state
                        &&& has_handler(final(bus).topic_subs(t), h)
                        &&& final(bus).topic_subs(t).len() == old(bus).topic_subs(t).len() + (
                        if has_handler(old(bus).topic_subs(t), h) {
                            0int
                        } else {
                            1int
                        })
                        &&& (forall|t2: Seq<char>|
                            t2 != t ==> final(bus).topic_subs(t2) == old(bus).topic_subs(t2))
                        &&& final(bus).endpoints == old(bus).endpoints
                        &&& final(bus).correlations == old(bus).correlations
                        &&& (client_id is Some ==> {
                            &&& final(cmds).commands@.len() == old(cmds).commands@.len() + 1
                            &&& final(cmds).commands@.subrange(0, old(cmds).commands@.len() as int)
                                == old(cmds).commands@
                            &&& (final(cmds).commands@.last() matches DataCommand::Subscribe(
                                SubscribeCommand::Bars(c),
                            ) && c.bar_type == bar_type && c.client_id == client_id && c.venue == Some(bar_type.instrument_id.venue) && c.await_partial == await_partial && c.ts_init == clock.time_ns() && c.params == params)
                        })
                        &&& (client_id is None ==> *final(cmds) == *old(cmds))
                    },
                    Err(e) => {
                        &&& e == ActorError::NotRegistered
                        &&& !old(self).is_registered()
                        &&& *final(self) == *old(self)
                        &&& *final(bus) == *old(bus)
                        &&& *final(switchboard) == *old(switchboard)
                        &&& *final(cmds) == *old(cmds)
                    },
                }
            }),
    {
        if self.trader_id.is_none() {
            return Err(ActorError::NotRegistered);
        }
        let topic = switchboard.get_bars_topic(bar_type.clone());
        let handler = self.get_or_create_handler_for_topic(&topic);
        let ghost subs0 = bus.topic_subs(topic@);
        let ghost subv = Subscription { handler: handler, priority: 0u8 };
        bus.subscribe_topic(topic, handler, 0);
        proof {
            if !has_handler(subs0, subv.handler@) {
                lemma_insert_sub_has_handler(subs0, subv);
            }
        }
        if client_id.is_none() {
            return Ok(());
        }
        let venue = Some(bar_type.instrument_id.venue.clone());
        let command = SubscribeBars::new(bar_type, client_id, venue, await_partial, Uuid4::generate(), clock.timestamp_ns(), params);
        cmds.push(DataCommand::Subscribe(SubscribeCommand::Bars(command)));
        Ok(())
    }

    /// Subscribes the actor to mark price updates of the instrument: its handler for the topic is
    /// created once and registered on the bus once — subscribing twice
    /// leaves one map entry and one bus subscription. Only when a client id
    /// names the owning engine client is the subscription command also
    /// queued for the data engine; without one the subscription is purely
    /// local. An unregistered actor must not subscribe: that fails
    /// explicitly.
    pub fn subscribe_mark_prices(
        &mut self,
        bus: &mut MessageBus,
        switchboard: &mut MessagingSwitchboard,
        cmds: &mut DataCommandQueue,
        clock: &Clock,
        instrument_id: InstrumentId,
        client_id: Option<ClientId>,
        params: Option<Vec<(String, String)>>,
    ) -> (r: Result<(), ActorError>)
        requires
            old(self).wf(),
            old(bus).wf(),
            old(switchboard).wf(),
        ensures
            final(self).wf(),
            final(bus).wf(),
            final(switchboard).wf(),
            ({
                let t = mark_price_topic_spec(instrument_id.venue@, instrument_id.symbol@);
                let h = handler_id_spec(old(self).actor_id@, t);
                match r {
                    Ok(()) => {
                        &&& old(self).is_registered()
                        &&& (has_key(old(self).topic_handlers_spec(), t) ==> final(self).topic_handlers_spec() == old(self).topic_handlers_spec())
                        &&& (!has_key(old(self).topic_handlers_spec(), t) ==> final(self).topic_handlers_spec().len() == old(self).topic_handlers_spec().len() + 1)
                        &&& has_key(final(self).topic_handlers_spec(), t)
                        &&& final(self).actor_id == old(self).actor_id
                        &&& final(self).trader_id == old(self).trader_id
                        &&& final(self).state == old(self).state
                        &&& has_handler(final(bus).topic_subs(t), h)
                        &&& final(bus).topic_subs(t).len() == old(bus).topic_subs(t).len() + (
                        if has_handler(old(bus).topic_subs(t), h) {
                            0int
                        } else {
                            1int
                        })
                        &&& (forall|t2: Seq<char>|
                            t2 != t ==> final(bus).topic_subs(t2) == old(bus).topic_subs(t2))
                        &&& final(bus).endpoints == old(bus).endpoints
                        &&& final(bus).correlations == old(bus).correlations
                        &&& (client_id is Some ==> {
                            &&& final(cmds).commands@.len() == old(cmds).commands@.len() + 1
                            &&& final(cmds).commands@.subrange(0, old(cmds).commands@.len() as int)
                                == old(cmds).commands@
                            &&& (final(cmds).commands@.last() matches DataCommand::Subscribe(
                                SubscribeCommand::MarkPrices(c),
                            ) && c.instrument_id == instrument_id && c.client_id == client_id && c.venue == Some(instrument_id.venue) && c.ts_init == clock.time_ns() && c.params == params)
                        })
                        &&& (client_id is None ==> *final(cmds) == *old(cmds))
                    },
                    Err(e) => {
                        &&& e == ActorError::NotRegistered
                        &&& !old(self).is_registered()
                        &&& *final(self) == *old(self)
                        &&& *final(bus) == *old(bus)
                        &&& *final(switchboard) == *old(switchboard)
                        &&& *final(cmds) == *old(cmds)
                    },
                }
            }),
    {
        if self.trader_id.is_none() {
            return Err(ActorError::NotRegistered);
        }
        let topic = switchboard.get_mark_price_topic(instrument_id.clone());
        let handler = self.get_or_create_handler_for_topic(&topic);
        let ghost subs0 = bus.topic_subs(topic@);
        let ghost subv = Subscription { handler: handler, priority: 0u8 };
        bus.subscribe_topic(topic, handler, 0);
        proof {
            if !has_handler(subs0, subv.handler@) {
                lemma_insert_sub_has_handler(subs0, subv);
            }
        }
        if client_id.is_none() {
            return Ok(());
        }
        let venue = Some(instrument_id.venue.clone());
        let command = SubscribeMarkPrices::new(instrument_id, client_id, venue, Uuid4::generate(), clock.timestamp_ns(), params);
        cmds.push(DataCommand::Subscribe(SubscribeCommand::MarkPrices(command)));
        Ok(())
    }

    /// Subscribes the actor to index price updates of the instrument: its handler for the topic is
    /// created once and registered on the bus once — subscribing twice
    /// leaves one map entry and one bus subscription. Only when a client id
    /// names the owning engine client is the subscription command also
    /// queued for the data engine; without one the subscription is purely
    /// local. An unregistered actor must not subscribe: that fails
    /// explicitly.
    pub fn subscribe_index_prices(
        &mut self,
        bus: &mut MessageBus,
        switchboard: &mut MessagingSwitchboard,
        cmds: &mut DataCommandQueue,
        clock: &Clock,
        instrument_id: InstrumentId,
        client_id: Option<ClientId>,
        params: Option<Vec<(String, String)>>,
    ) -> (r: Result<(), ActorError>)
        requires
            old(self).wf(),
            old(bus).wf(),
            old(switchboard).wf(),
        ensures
            final(self).wf(),
            final(bus).wf(),
            final(switchboard).wf(),
            ({
                let t = index_price_topic_spec(instrument_id.venue@, instrument_id.symbol@);
                let h = handler_id_spec(old(self).actor_id@, t);
                match r {
                    Ok(()) => {
                        &&& old(self).is_registered()
                        &&& (has_key(old(self).topic_handlers_spec(), t) ==> final(self).topic_handlers_spec() == old(self).topic_handlers_spec())
                        &&& (!has_key(old(self).topic_handlers_spec(), t) ==> final(self).topic_handlers_spec().len() == old(self).topic_handlers_spec().len() + 1)
                        &&& has_key(final(self).topic_handlers_spec(), t)
                        &&& final(self).actor_id == old(self).actor_id
                        &&& final(self).trader_id == old(self).trader_id
                        &&& final(self).state == old(self).state
                        &&& has_handler(final(bus).topic_subs(t), h)
                        &&& final(bus).topic_subs(t).len() == old(bus).topic_subs(t).len() + (
                        if has_handler(old(bus).topic_subs(t), h) {
                            0int
                        } else {
                            1int
                        })
                        &&& (forall|t2: Seq<char>|
                            t2 != t ==> final(bus).topic_subs(t2) == old(bus).topic_subs(t2))
                        &&& final(bus).endpoints == old(bus).endpoints
                        &&& final(bus).correlations == old(bus).correlations
                        &&& (client_id is Some ==> {
                            &&& final(cmds).commands@.len() == old(cmds).commands@.len() + 1
                            &&& final(cmds).commands@.subrange(0, old(cmds).commands@.len() as int)
                                == old(cmds).commands@
                            &&& (final(cmds).commands@.last() matches DataCommand::Subscribe(
                                SubscribeCommand::IndexPrices(c),
                            ) && c.instrument_id == instrument_id && c.client_id == client_id && c.venue == Some(instrument_id.venue) && c.ts_init == clock.time_ns() && c.params == params)
                        })
                        &&& (client_id is None ==> *final(cmds) == *old(cmds))
                    },
                    Err(e) => {
                        &&& e == ActorError::NotRegistered
                        &&& !old(self).is_registered()
                        &&& *final(self) == *old(self)
                        &&& *final(bus) == *old(bus)
                        &&& *final(switchboard) == *old(switchboard)
                        &&& *final(cmds) == *old(cmds)
                    },
                }
            }),
    {
        if self.trader_id.is_none() {
            return Err(ActorError::NotRegistered);
        }
        let topic = switchboard.get_index_price_topic(instrument_id.clone());
        let handler = self.get_or_create_handler_for_topic(&topic);
        let ghost subs0 = bus.topic_subs(topic@);
        let ghost subv = Subscription { handler: handler, priority: 0u8 };
        bus.subscribe_topic(topic, handler, 0);
        proof {
            if !has_handler(subs0, subv.handler@) {
                lemma_insert_sub_has_handler(subs0, subv);
            }
        }
        if client_id.is_none() {
            return Ok(());
        }
        let venue = Some(instrument_id.venue.clone());
        let command = SubscribeIndexPrices::new(instrument_id, client_id, venue, Uuid4::generate(), clock.timestamp_ns(), params);
        cmds.push(DataCommand::Subscribe(SubscribeCommand::IndexPrices(command)));
        Ok(())
    }

    /// Subscribes the actor to status updates of the instrument: its handler for the topic is
    /// created once and registered on the bus once — subscribing twice
    /// leaves one map entry and one bus subscription. Only when a client id
    /// names the owning engine client is the subscription command also
    /// queued for the data engine; without one the subscription is purely
    /// local. An unregistered actor must not subscribe: that fails
    /// explicitly.
    pub fn subscribe_instrument_status(
        &mut self,
        bus: &mut MessageBus,
        switchboard: &mut MessagingSwitchboard,
        cmds: &mut DataCommandQueue,
        clock: &Clock,
        instrument_id: InstrumentId,
        client_id: Option<ClientId>,
        params: Option<Vec<(String, String)>>,
    ) -> (r: Result<(), ActorError>)
        requires
            old(self).wf(),
            old(bus).wf(),
            old(switchboard).wf(),
        ensures
            final(self).wf(),
            final(bus).wf(),
            final(switchboard).wf(),
            ({
                let t = instrument_status_topic_spec(instrument_id.venue@, instrument_id.symbol@);
                let h = handler_id_spec(old(self).actor_id@, t);
                match r {
                    Ok(()) => {
                        &&& old(self).is_registered()
                        &&& (has_key(old(self).topic_handlers_spec(), t) ==> final(self).topic_handlers_spec() == old(self).topic_handlers_spec())
                        &&& (!has_key(old(self).topic_handlers_spec(), t) ==> final(self).topic_handlers_spec().len() == old(self).topic_handlers_spec().len() + 1)
                        &&& has_key(final(self).topic_handlers_spec(), t)
                        &&& final(self).actor_id == old(self).actor_id
                        &&& final(self).trader_id == old(self).trader_id
                        &&& final(self).state == old(self).state
                        &&& has_handler(final(bus).topic_subs(t), h)
                        &&& final(bus).topic_subs(t).len() == old(bus).topic_subs(t).len() + (
                        if has_handler(old(bus).topic_subs(t), h) {
                            0int
                        } else {
                            1int
                        })
                        &&& (forall|t2: Seq<char>|
                            t2 != t ==> final(bus).topic_subs(t2) == old(bus).topic_subs(t2))
                        &&& final(bus).endpoints == old(bus).endpoints
                        &&& final(bus).correlations == old(bus).correlations
                        &&& (client_id is Some ==> {
                            &&& final(cmds).commands@.len() == old(cmds).commands@.len() + 1
                            &&& final(cmds).commands@.subrange(0, old(cmds).commands@.len() as int)
                                == old(cmds).commands@
                            &&& (final(cmds).commands@.last() matches DataCommand::Subscribe(
                                SubscribeCommand::InstrumentStatus(c),
                            ) && c.instrument_id == instrument_id && c.client_id == client_id && c.venue == Some(instrument_id.venue) && c.ts_init == clock.time_ns() && c.params == params)
                        })
                        &&& (client_id is None ==> *final(cmds) == *old(cmds))
                    },
                    Err(e) => {
                        &&& e == ActorError::NotRegistered
                        &&& !old(self).is_registered()
                        &&& *final(self) == *old(self)
                        &&& *final(bus) == *old(bus)
                        &&& *final(switchboard) == *old(switchboard)
                        &&& *final(cmds) == *old(cmds)
                    },
                }
            }),
    {
        if self.trader_id.is_none() {
            return Err(ActorError::NotRegistered);
        }
        let topic = switchboard.get_instrument_status_topic(instrument_id.clone());
        let handler = self.get_or_create_handler_for_topic(&topic);
        let ghost subs0 = bus.topic_subs(topic@);
        let ghost subv = Subscription { handler: handler, priority: 0u8 };
        bus.subscribe_topic(topic, handler, 0);
        proof {
            if !has_handler(subs0, subv.handler@) {
                lemma_insert_sub_has_handler(subs0, subv);
            }
        }
        if client_id.is_none() {
            return Ok(());
        }
        let venue = Some(instrument_id.venue.clone());
        let command = SubscribeInstrumentStatus::new(instrument_id, client_id, venue, Uuid4::generate(), clock.timestamp_ns(), params);
        cmds.push(DataCommand::Subscribe(SubscribeCommand::InstrumentStatus(command)));
        Ok(())
    }

    /// Subscribes the actor to close updates of the instrument: its handler for the topic is
    /// created once and registered on the bus once — subscribing twice
    /// leaves one map entry and one bus subscription. Only when a client id
    /// names the owning engine client is the subscription command also
    /// queued for the data engine; without one the subscription is purely
    /// local. An unregistered actor must not subscribe: that fails
    /// explicitly.
    pub fn subscribe_instrument_close(
        &mut self,
        bus: &mut MessageBus,
        switchboard: &mut MessagingSwitchboard,
        cmds: &mut DataCommandQueue,
        clock: &Clock,
        instrument_id: InstrumentId,
        client_id: Option<ClientId>,
        params: Option<Vec<(String, String)>>,
    ) -> (r: Result<(), ActorError>)
        requires
            old(self).wf(),
            old(bus).wf(),
            old(switchboard).wf(),
        ensures
            final(self).wf(),
            final(bus).wf(),
            final(switchboard).wf(),
            ({
                let t = instrument_close_topic_spec(instrument_id.venue@, instrument_id.symbol@);
                let h = handler_id_spec(old(self).actor_id@, t);
                match r {
                    Ok(()) => {
                        &&& old(self).is_registered()
                        &&& (has_key(old(self).topic_handlers_spec(), t) ==> final(self).topic_handlers_spec() == old(self).topic_handlers_spec())
                        &&& (!has_key(old(self).topic_handlers_spec(), t) ==> final(self).topic_handlers_spec().len() == old(self).topic_handlers_spec().len() + 1)
                        &&& has_key(final(self).topic_handlers_spec(), t)
                        &&& final(self).actor_id == old(self).actor_id
                        &&& final(self).trader_id == old(self).trader_id
                        &&& final(self).state == old(self).state
                        &&& has_handler(final(bus).topic_subs(t), h)
                        &&& final(bus).topic_subs(t).len() == old(bus).topic_subs(t).len() + (
                        if has_handler(old(bus).topic_subs(t), h) {
                            0int
                        } else {
                            1int
                        })
                        &&& (forall|t2: Seq<char>|
                            t2 != t ==> final(bus).topic_subs(t2) == old(bus).topic_subs(t2))
                        &&& final(bus).endpoints == old(bus).endpoints
                        &&& final(bus).correlations == old(bus).correlations
                        &&& (client_id is Some ==> {
                            &&& final(cmds).commands@.len() == old(cmds).commands@.len() + 1
                            &&& final(cmds).commands@.subrange(0, old(cmds).commands@.len() as int)
                                == old(cmds).commands@
                            &&& (final(cmds).commands@.last() matches DataCommand::Subscribe(
                                SubscribeCommand::InstrumentClose(c),
                            ) && c.instrument_id == instrument_id && c.client_id == client_id && c.venue == Some(instrument_id.venue) && c.ts_init == clock.time_ns() && c.params == params)
                        })
                        &&& (client_id is None ==> *final(cmds) == *old(cmds))
                    },
                    Err(e) => {
                        &&& e == ActorError::NotRegistered
                        &&& !old(self).is_registered()
                        &&& *final(self) == *old(self)
                        &&& *final(bus) == *old(bus)
                        &&& *final(switchboard) == *old(switchboard)
                        &&& *final(cmds) == *old(cmds)
                    },
                }
            }),
    {
        if self.trader_id.is_none() {
            return Err(ActorError::NotRegistered);
        }
        let topic = switchboard.get_instrument_close_topic(instrument_id.clone());
        let handler = self.get_or_create_handler_for_topic(&topic);
        let ghost subs0 = bus.topic_subs(topic@);
        let ghost subv = Subscription { handler: handler, priority: 0u8 };
        bus.subscribe_topic(topic, handler, 0);
        proof {
            if !has_handler(subs0, subv.handler@) {
                lemma_insert_sub_has_handler(subs0, subv);
            }
        }
        if client_id.is_none() {
            return Ok(());
        }
        let venue = Some(instrument_id.venue.clone());
        let command = SubscribeInstrumentClose::new(instrument_id, client_id, venue, Uuid4::generate(), clock.timestamp_ns(), params);
        cmds.push(DataCommand::Subscribe(SubscribeCommand::InstrumentClose(command)));
        Ok(())
    }

    /// Unsubscribes the actor from custom data of the given type: exactly the handler it had
    /// stored for the topic is removed from the bus — with no prior
    /// subscription this is a no-op, not an error. Only when a client id
    /// names the owning engine client is the unsubscription command also
    /// queued for the data engine.
    pub fn unsubscribe_data(
        &self,
        bus: &mut MessageBus,
        switchboard: &mut MessagingSwitchboard,
        cmds: &mut DataCommandQueue,
        clock: &Clock,
        data_type: DataType,
        client_id: Option<ClientId>,
        params: Option<Vec<(String, String)>>,
    ) -> (r: Result<(), ActorError>)
        requires
            self.wf(),
            old(bus).wf(),
            old(switchboard).wf(),
        ensures
            final(bus).wf(),
            final(switchboard).wf(),
            ({
                let t = custom_topic_spec(data_type@);
                let h = handler_id_spec(self.actor_id@, t);
                match r {
                    Ok(()) => {
                        &&& self.is_registered()
                        &&& (has_key(self.topic_handlers_spec(), t) ==> final(bus).topic_subs(t)
                            == remove_sub(old(bus).topic_subs(t), h))
                        &&& (!has_key(self.topic_handlers_spec(), t) ==> final(bus).topic_subs(t)
                            == old(bus).topic_subs(t))
                        &&& (forall|t2: Seq<char>|
                            t2 != t ==> final(bus).topic_subs(t2) == old(bus).topic_subs(t2))
                        &&& final(bus).endpoints == old(bus).endpoints
                        &&& final(bus).correlations == old(bus).correlations
                        &&& (client_id is Some ==> {
                            &&& final(cmds).commands@.len() == old(cmds).commands@.len() + 1
                            &&& final(cmds).commands@.subrange(
                                0,
                                old(cmds).commands@.len() as int,
                            ) == old(cmds).commands@
                            &&& (final(cmds).commands@.last() matches DataCommand::Unsubscribe(
                                UnsubscribeCommand::Data(c),
                            ) && c.data_type == data_type && c.client_id == client_id && (c.venue is None) && c.ts_init == clock.time_ns() && c.params
                                == params)
                        })
                        &&& (client_id is None ==> *final(cmds) == *old(cmds))
                    },
                    Err(e) => {
                        &&& e == ActorError::NotRegistered
                        &&& !self.is_registered()
                        &&& *final(bus) == *old(bus)
                        &&& *final(switchboard) == *old(switchboard)
                        &&& *final(cmds) == *old(cmds)
                    },
                }
            }),
    {
        if self.trader_id.is_none() {
            return Err(ActorError::NotRegistered);
        }
        let topic = switchboard.get_custom_topic(data_type.clone());
        match self.get_handler_for_topic(&topic) {
            Some(handler) => {
                bus.unsubscribe_topic(&topic, &handler);
            },
            None => {},
        }
        if client_id.is_none() {
            return Ok(());
        }
        let command = UnsubscribeData::new(client_id, None, data_type, Uuid4::generate(), clock.timestamp_ns(), params);
        cmds.push(DataCommand::Unsubscribe(UnsubscribeCommand::Data(command)));
        Ok(())
    }

    /// Unsubscribes the actor from all instrument definitions of the venue: exactly the handler it had
    /// stored for the topic is removed from the bus — with no prior
    /// subscription this is a no-op, not an error. Only when a client id
    /// names the owning engine client is the unsubscription command also
    /// queued for the data engine.
    pub fn unsubscribe_instruments(
        &self,
        bus: &mut MessageBus,
        switchboard: &mut MessagingSwitchboard,
        cmds: &mut DataCommandQueue,
        clock: &Clock,
        venue: Venue,
        client_id: Option<ClientId>,
        params: Option<Vec<(String, String)>>,
    ) -> (r: Result<(), ActorError>)
        requires
            self.wf(),
            old(bus).wf(),
            old(switchboard).wf(),
        ensures
            final(bus).wf(),
            final(switchboard).wf(),
            ({
                let t = instruments_topic_spec(venue@);
                let h = handler_id_spec(self.actor_id@, t);
                match r {
                    Ok(()) => {
                        &&& self.is_registered()
                        &&& (has_key(self.topic_handlers_spec(), t) ==> final(bus).topic_subs(t)
                            == remove_sub(old(bus).topic_subs(t), h))
                        &&& (!has_key(self.topic_handlers_spec(), t) ==> final(bus).topic_subs(t)
                            == old(bus).topic_subs(t))
                        &&& (forall|t2: Seq<char>|
                            t2 != t ==> final(bus).topic_subs(t2) == old(bus).topic_subs(t2))
                        &&& final(bus).endpoints == old(bus).endpoints
                        &&& final(bus).correlations == old(bus).correlations
                        &&& (client_id is Some ==> {
                            &&& final(cmds).commands@.len() == old(cmds).commands@.len() + 1
                            &&& final(cmds).commands@.subrange(0, old(cmds).commands@.len() as int)
                                == old(cmds).commands@
                            &&& (final(cmds).commands@.last() matches DataCommand::Unsubscribe(
                                UnsubscribeCommand::Instruments(c),
                            ) && c.venue == venue && c.client_id == client_id && c.ts_init == clock.time_ns() && c.params == params)
                        })
                        &&& (client_id is None ==> *final(cmds) == *old(cmds))
                    },
                    Err(e) => {
                        &&& e == ActorError::NotRegistered
                        &&& !self.is_registered()
                        &&& *final(bus) == *old(bus)
                        &&& *final(switchboard) == *old(switchboard)
                        &&& *final(cmds) == *old(cmds)
                    },
                }
            }),
    {
        if self.trader_id.is_none() {
            return Err(ActorError::NotRegistered);
        }
        let topic = switchboard.get_instruments_topic(venue.clone());
        match self.get_handler_for_topic(&topic) {
            Some(handler) => {
                bus.unsubscribe_topic(&topic, &handler);
            },
            None => {},
        }
        if client_id.is_none() {
            return Ok(());
        }
        let command = UnsubscribeInstruments::new(client_id, venue, Uuid4::generate(), clock.timestamp_ns(), params);
        cmds.push(DataCommand::Unsubscribe(UnsubscribeCommand::Instruments(command)));
        Ok(())
    }

    /// Unsubscribes the actor from the instrument's definition updates: exactly the handler it had
    /// stored for the topic is removed from the bus — with no prior
    /// subscription this is a no-op, not an error. Only when a client id
    /// names the owning engine client is the unsubscription command also
    /// queued for the data engine.
    pub fn unsubscribe_instrument(
        &self,
        bus: &mut MessageBus,
        switchboard: &mut MessagingSwitchboard,
        cmds: &mut DataCommandQueue,
        clock: &Clock,
        instrument_id: InstrumentId,
        client_id: Option<ClientId>,
        params: Option<Vec<(String, String)>>,
    ) -> (r: Result<(), ActorError>)
        requires
            self.wf(),
            old(bus).wf(),
            old(switchboard).wf(),
        ensures
            final(bus).wf(),
            final(switchboard).wf(),
            ({
                let t = instrument_topic_spec(instrument_id.venue@, instrument_id.symbol@);
                let h = handler_id_spec(self.actor_id@, t);
                match r {
                    Ok(()) => {
                        &&& self.is_registered()
                        &&& (has_key(self.topic_handlers_spec(), t) ==> final(bus).topic_subs(t)
                            == remove_sub(old(bus).topic_subs(t), h))
                        &&& (!has_key(self.topic_handlers_spec(), t) ==> final(bus).topic_subs(t)
                            == old(bus).topic_subs(t))
                        &&& (forall|t2: Seq<char>|
                            t2 != t ==> final(bus).topic_subs(t2) == old(bus).topic_subs(t2))
                        &&& final(bus).endpoints == old(bus).endpoints
                        &&& final(bus).correlations == old(bus).correlations
                        &&& (client_id is Some ==> {
                            &&& final(cmds).commands@.len() == old(cmds).commands@.len() + 1
                            &&& final(cmds).commands@.subrange(0, old(cmds).commands@.len() as int)
                                == old(cmds).commands@
                            &&& (final(cmds).commands@.last() matches DataCommand::Unsubscribe(
                                UnsubscribeCommand::Instrument(c),
                            ) && c.instrument_id == instrument_id && c.client_id == client_id && c.venue == Some(instrument_id.venue) && c.ts_init == clock.time_ns() && c.params == params)
                        })
                        &&& (client_id is None ==> *final(cmds) == *old(cmds))
                    },
                    Err(e) => {
                        &&& e == ActorError::NotRegistered
                        &&& !self.is_registered()
                        &&& *final(bus) == *old(bus)
                        &&& *final(switchboard) == *old(switchboard)
                        &&& *final(cmds) == *old(cmds)
                    },
                }
            }),
    {
        if self.trader_id.is_none() {
            return Err(ActorError::NotRegistered);
        }
        let topic = switchboard.get_instrument_topic(instrument_id.clone());
        match self.get_handler_for_topic(&topic) {
            Some(handler) => {
                bus.unsubscribe_topic(&topic, &handler);
            },
            None => {},
        }
        if client_id.is_none() {
            return Ok(());
        }
        let venue = Some(instrument_id.venue.clone());
        let command = UnsubscribeInstrument::new(instrument_id, client_id, venue, Uuid4::generate(), clock.timestamp_ns(), params);
        cmds.push(DataCommand::Unsubscribe(UnsubscribeCommand::Instrument(command)));
        Ok(())
    }

    /// Unsubscribes the actor from order book deltas of the instrument: exactly the handler it had
    /// stored for the topic is removed from the bus — with no prior
    /// subscription this is a no-op, not an error. Only when a client id
    /// names the owning engine client is the unsubscription command also
    /// queued for the data engine.
    pub fn unsubscribe_book_deltas(
        &self,
        bus: &mut MessageBus,
        switchboard: &mut MessagingSwitchboard,
        cmds: &mut DataCommandQueue,
        clock: &Clock,
        instrument_id: InstrumentId,
        client_id: Option<ClientId>,
        params: Option<Vec<(String, String)>>,
    ) -> (r: Result<(), ActorError>)
        requires
            self.wf(),
            old(bus).wf(),
            old(switchboard).wf(),
        ensures
            final(bus).wf(),
            final(switchboard).wf(),
            ({
                let t = book_deltas_topic_spec(instrument_id.venue@, instrument_id.symbol@);
                let h = handler_id_spec(self.actor_id@, t);
                match r {
                    Ok(()) => {
                        &&& self.is_registered()
                        &&& (has_key(self.topic_handlers_spec(), t) ==> final(bus).topic_subs(t)
                            == remove_sub(old(bus).topic_subs(t), h))
                        &&& (!has_key(self.topic_handlers_spec(), t) ==> final(bus).topic_subs(t)
                            == old(bus).topic_subs(t))
                        &&& (forall|t2: Seq<char>|
                            t2 != t ==> final(bus).topic_subs(t2) == old(bus).topic_subs(t2))
                        &&& final(bus).endpoints == old(bus).endpoints
                        &&& final(bus).correlations == old(bus).correlations
                        &&& (client_id is Some ==> {
                            &&& final(cmds).commands@.len() == old(cmds).commands@.len() + 1
                            &&& final(cmds).commands@.subrange(0, old(cmds).commands@.len() as int)
                                == old(cmds).commands@
                            &&& (final(cmds).commands@.last() matches DataCommand::Unsubscribe(
                                UnsubscribeCommand::BookDeltas(c),
                            ) && c.instrument_id == instrument_id && c.client_id == client_id && c.venue == Some(instrument_id.venue) && c.ts_init == clock.time_ns() && c.params == params)
                        })
                        &&& (client_id is None ==> *final(cmds) == *old(cmds))
                    },
                    Err(e) => {
                        &&& e == ActorError::NotRegistered
                        &&& !self.is_registered()
                        &&& *final(bus) == *old(bus)
                        &&& *final(switchboard) == *old(switchboard)
                        &&& *final(cmds) == *old(cmds)
                    },
                }
            }),
    {
        if self.trader_id.is_none() {
            return Err(ActorError::NotRegistered);
        }
        let topic = switchboard.get_book_deltas_topic(instrument_id.clone());
        match self.get_handler_for_topic(&topic) {
            Some(handler) => {
                bus.unsubscribe_topic(&topic, &handler);
            },
            None => {},
        }
        if client_id.is_none() {
            return Ok(());
        }
        let venue = Some(instrument_id.venue.clone());
        let command = UnsubscribeBookDeltas::new(instrument_id, client_id, venue, Uuid4::generate(), clock.timestamp_ns(), params);
        cmds.push(DataCommand::Unsubscribe(UnsubscribeCommand::BookDeltas(command)));
        Ok(())
    }

    /// Unsubscribes the actor from periodic book snapshots of the instrument: exactly the handler it had
    /// stored for the topic is removed from the bus — with no prior
    /// subscription this is a no-op, not an error. Only when a client id
    /// names the owning engine client is the unsubscription command also
    /// queued for the data engine.
    pub fn unsubscribe_book_at_interval(
        &self,
        bus: &mut MessageBus,
        switchboard: &mut MessagingSwitchboard,
        cmds: &mut DataCommandQueue,
        clock: &Clock,
        instrument_id: InstrumentId,
        interval_ms: usize,
        client_id: Option<ClientId>,
        params: Option<Vec<(String, String)>>,
    ) -> (r: Result<(), ActorError>)
        requires
            self.wf(),
            old(bus).wf(),
            old(switchboard).wf(),
        ensures
            final(bus).wf(),
            final(switchboard).wf(),
            ({
                let t = book_snapshots_topic_spec(instrument_id.venue@, instrument_id.symbol@);
                let h = handler_id_spec(self.actor_id@, t);
                match r {
                    Ok(()) => {
                        &&& self.is_registered()
                        &&& (has_key(self.topic_handlers_spec(), t) ==> final(bus).topic_subs(t)
                            == remove_sub(old(bus).topic_subs(t), h))
                        &&& (!has_key(self.topic_handlers_spec(), t) ==> final(bus).topic_subs(t)
                            == old(bus).topic_subs(t))
                        &&& (forall|t2: Seq<char>|
                            t2 != t ==> final(bus).topic_subs(t2) == old(bus).topic_subs(t2))
                        &&& final(bus).endpoints == old(bus).endpoints
                        &&& final(bus).correlations == old(bus).correlations
                        &&& (client_id is Some ==> {
                            &&& final(cmds).commands@.len() == old(cmds).commands@.len() + 1
                            &&& final(cmds).commands@.subrange(0, old(cmds).commands@.len() as int)
                                == old(cmds).commands@
                            &&& (final(cmds).commands@.last() matches DataCommand::Unsubscribe(
                                UnsubscribeCommand::BookSnapshots(c),
                            ) && c.instrument_id == instrument_id && c.client_id == client_id && c.venue == Some(instrument_id.venue) && c.ts_init == clock.time_ns() && c.params == params)
                        })
                        &&& (client_id is None ==> *final(cmds) == *old(cmds))
                    },
                    Err(e) => {
                        &&& e == ActorError::NotRegistered
                        &&& !self.is_registered()
                        &&& *final(bus) == *old(bus)
                        &&& *final(switchboard) == *old(switchboard)
                        &&& *final(cmds) == *old(cmds)
                    },
                }
            }),
    {
        if self.trader_id.is_none() {
            return Err(ActorError::NotRegistered);
        }
        let topic = switchboard.get_book_snapshots_topic(instrument_id.clone());
        match self.get_handler_for_topic(&topic) {
            Some(handler) => {
                bus.unsubscribe_topic(&topic, &handler);
            },
            None => {},
        }
        if client_id.is_none() {
            return Ok(());
        }
        let venue = Some(instrument_id.venue.clone());
        let _ = interval_ms;
        let command = UnsubscribeBookSnapshots::new(instrument_id, client_id, venue, Uuid4::generate(), clock.timestamp_ns(), params);
        cmds.push(DataCommand::Unsubscribe(UnsubscribeCommand::BookSnapshots(command)));
        Ok(())
    }

    /// Unsubscribes the actor from trades of the instrument: exactly the handler it had
    /// stored for the topic is removed from the bus — with no prior
    /// subscription this is a no-op, not an error. Only when a client id
    /// names the owning engine client is the unsubscription command also
    /// queued for the data engine.
    pub fn unsubscribe_trades(
        &self,
        bus: &mut MessageBus,
        switchboard: &mut MessagingSwitchboard,
        cmds: &mut DataCommandQueue,
        clock: &Clock,
        instrument_id: InstrumentId,
        client_id: Option<ClientId>,
        params: Option<Vec<(String, String)>>,
    ) -> (r: Result<(), ActorError>)
        requires
            self.wf(),
            old(bus).wf(),
            old(switchboard).wf(),
        ensures
            final(bus).wf(),
            final(switchboard).wf(),
            ({
                let t = trades_topic_spec(instrument_id.venue@, instrument_id.symbol@);
                let h = handler_id_spec(self.actor_id@, t);
                match r {
                    Ok(()) => {
                        &&& self.is_registered()
                        &&& (has_key(self.topic_handlers_spec(), t) ==> final(bus).topic_subs(t)
                            == remove_sub(old(bus).topic_subs(t), h))
                        &&& (!has_key(self.topic_handlers_spec(), t) ==> final(bus).topic_subs(t)
                            == old(bus).topic_subs(t))
                        &&& (forall|t2: Seq<char>|
                            t2 != t ==> final(bus).topic_subs(t2) == old(bus).topic_subs(t2))
                        &&& final(bus).endpoints == old(bus).endpoints
                        &&& final(bus).correlations == old(bus).correlations
                        &&& (client_id is Some ==> {
                            &&& final(cmds).commands@.len() == old(cmds).commands@.len() + 1
                            &&& final(cmds).commands@.subrange(0, old(cmds).commands@.len() as int)
                                == old(cmds).commands@
                            &&& (final(cmds).commands@.last() matches DataCommand::Unsubscribe(
                                UnsubscribeCommand::Trades(c),
                            ) && c.instrument_id == instrument_id && c.client_id == client_id && c.venue == Some(instrument_id.venue) && c.ts_init == clock.time_ns() && c.params == params)
                        })
                        &&& (client_id is None ==> *final(cmds) == *old(cmds))
                    },
                    Err(e) => {
                        &&& e == ActorError::NotRegistered
                        &&& !self.is_registered()
                        &&& *final(bus) == *old(bus)
                        &&& *final(switchboard) == *old(switchboard)
                        &&& *final(cmds) == *old(cmds)
                    },
                }
            }),
    {
        if self.trader_id.is_none() {
            return Err(ActorError::NotRegistered);
        }
        let topic = switchboard.get_trades_topic(instrument_id.clone());
        match self.get_handler_for_topic(&topic) {
            Some(handler) => {
                bus.unsubscribe_topic(&topic, &handler);
            },
            None => {},
        }
        if client_id.is_none() {
            return Ok(());
        }
        let venue = Some(instrument_id.venue.clone());
        let command = UnsubscribeTrades::new(instrument_id, client_id, venue, Uuid4::generate(), clock.timestamp_ns(), params);
        cmds.push(DataCommand::Unsubscribe(UnsubscribeCommand::Trades(command)));
        Ok(())
    }

    /// Unsubscribes the actor from bars of the bar type: exactly the handler it had
    /// stored for the topic is removed from the bus — with no prior
    /// subscription this is a no-op, not an error. Only when a client id
    /// names the owning engine client is the unsubscription command also
    /// queued for the data engine.
    pub fn unsubscribe_bars(
        &self,
        bus: &mut MessageBus,
        switchboard: &mut MessagingSwitchboard,
        cmds: &mut DataCommandQueue,
        clock: &Clock,
        bar_type: BarType,
        client_id: Option<ClientId>,
        params: Option<Vec<(String, String)>>,
    ) -> (r: Result<(), ActorError>)
        requires
            self.wf(),
            old(bus).wf(),
            old(switchboard).wf(),
        ensures
            final(bus).wf(),
            final(switchboard).wf(),
            ({
                let t = bars_topic_spec(bar_type.instrument_id.symbol@, bar_type.instrument_id.venue@, bar_type.spec@);
                let h = handler_id_spec(self.actor_id@, t);
                match r {
                    Ok(()) => {
                        &&& self.is_registered()
                        &&& (has_key(self.topic_handlers_spec(), t) ==> final(bus).topic_subs(t)
                            == remove_sub(old(bus).topic_subs(t), h))
                        &&& (!has_key(self.topic_handlers_spec(), t) ==> final(bus).topic_subs(t)
                            == old(bus).topic_subs(t))
                        &&& (forall|t2: Seq<char>|
                            t2 != t ==> final(bus).topic_subs(t2) == old(bus).topic_subs(t2))
                        &&& final(bus).endpoints == old(bus).endpoints
                        &&& final(bus).correlations == old(bus).correlations
                        &&& (client_id is Some ==> {
                            &&& final(cmds).commands@.len() == old(cmds).commands@.len() + 1
                            &&& final(cmds).commands@.subrange(0, old(cmds).commands@.len() as int)
                                == old(cmds).commands@
                            &&& (final(cmds).commands@.last() matches DataCommand::Unsubscribe(
                                UnsubscribeCommand::Bars(c),
                            ) && c.bar_type == bar_type && c.client_id == client_id && c.venue == Some(bar_type.instrument_id.venue) && c.ts_init == clock.time_ns() && c.params == params)
                        })
                        &&& (client_id is None ==> *final(cmds) == *old(cmds))
                    },
                    Err(e) => {
                        &&& e == ActorError::NotRegistered
                        &&& !self.is_registered()
                        &&& *final(bus) == *old(bus)
                        &&& *final(switchboard) == *old(switchboard)
                        &&& *final(cmds) == *old(cmds)
                    },
                }
            }),
    {
        if self.trader_id.is_none() {
            return Err(ActorError::NotRegistered);
        }
        let topic = switchboard.get_bars_topic(bar_type.clone());
        match self.get_handler_for_topic(&topic) {
            Some(handler) => {
                bus.unsubscribe_topic(&topic, &handler);
            },
            None => {},
        }
        if client_id.is_none() {
            return Ok(());
        }
        let venue = Some(bar_type.instrument_id.venue.clone());
        let command = UnsubscribeBars::new(bar_type, client_id, venue, Uuid4::generate(), clock.timestamp_ns(), params);
        cmds.push(DataCommand::Unsubscribe(UnsubscribeCommand::Bars(command)));
        Ok(())
    }

    /// Unsubscribes the actor from mark price updates of the instrument: exactly the handler it had
    /// stored for the topic is removed from the bus — with no prior
    /// subscription this is a no-op, not an error. Only when a client id
    /// names the owning engine client is the unsubscription command also
    /// queued for the data engine.
    pub fn unsubscribe_mark_prices(
        &self,
        bus: &mut MessageBus,
        switchboard: &mut MessagingSwitchboard,
        cmds: &mut DataCommandQueue,
        clock: &Clock,
        instrument_id: InstrumentId,
        client_id: Option<ClientId>,
        params: Option<Vec<(String, String)>>,
    ) -> (r: Result<(), ActorError>)
        requires
            self.wf(),
            old(bus).wf(),
            old(switchboard).wf(),
        ensures
            final(bus).wf(),
            final(switchboard).wf(),
            ({
                let t = mark_price_topic_spec(instrument_id.venue@, instrument_id.symbol@);
                let h = handler_id_spec(self.actor_id@, t);
                match r {
                    Ok(()) => {
                        &&& self.is_registered()
                        &&& (has_key(self.topic_handlers_spec(), t) ==> final(bus).topic_subs(t)
                            == remove_sub(old(bus).topic_subs(t), h))
                        &&& (!has_key(self.topic_handlers_spec(), t) ==> final(bus).topic_subs(t)
                            == old(bus).topic_subs(t))
                        &&& (forall|t2: Seq<char>|
                            t2 != t ==> final(bus).topic_subs(t2) == old(bus).topic_subs(t2))
                        &&& final(bus).endpoints == old(bus).endpoints
                        &&& final(bus).correlations == old(bus).correlations
                        &&& (client_id is Some ==> {
                            &&& final(cmds).commands@.len() == old(cmds).commands@.len() + 1
                            &&& final(cmds).commands@.subrange(0, old(cmds).commands@.len() as int)
                                == old(cmds).commands@
                            &&& (final(cmds).commands@.last() matches DataCommand::Unsubscribe(
                                UnsubscribeCommand::MarkPrices(c),
                            ) && c.instrument_id == instrument_id && c.client_id == client_id && c.venue == Some(instrument_id.venue) && c.ts_init == clock.time_ns() && c.params == params)
                        })
                        &&& (client_id is None ==> *final(cmds) == *old(cmds))
                    },
                    Err(e) => {
                        &&& e == ActorError::NotRegistered
                        &&& !self.is_registered()
                        &&& *final(bus) == *old(bus)
                        &&& *final(switchboard) == *old(switchboard)
                        &&& *final(cmds) == *old(cmds)
                    },
                }
            }),
    {
        if self.trader_id.is_none() {
            return Err(ActorError::NotRegistered);
        }
        let topic = switchboard.get_mark_price_topic(instrument_id.clone());
        match self.get_handler_for_topic(&topic) {
            Some(handler) => {
                bus.unsubscribe_topic(&topic, &handler);
            },
            None => {},
        }
        if client_id.is_none() {
            return Ok(());
        }
        let venue = Some(instrument_id.venue.clone());
        let command = UnsubscribeMarkPrices::new(instrument_id, client_id, venue, Uuid4::generate(), clock.timestamp_ns(), params);
        cmds.push(DataCommand::Unsubscribe(UnsubscribeCommand::MarkPrices(command)));
        Ok(())
    }

    /// Unsubscribes the actor from index price updates of the instrument: exactly the handler it had
    /// stored for the topic is removed from the bus — with no prior
    /// subscription this is a no-op, not an error. Only when a client id
    /// names the owning engine client is the unsubscription command also
    /// queued for the data engine.
    pub fn unsubscribe_index_prices(
        &self,
        bus: &mut MessageBus,
        switchboard: &mut MessagingSwitchboard,
        cmds: &mut DataCommandQueue,
        clock: &Clock,
        instrument_id: InstrumentId,
        client_id: Option<ClientId>,
        params: Option<Vec<(String, String)>>,
    ) -> (r: Result<(), ActorError>)
        requires
            self.wf(),
            old(bus).wf(),
            old(switchboard).wf(),
        ensures
            final(bus).wf(),
            final(switchboard).wf(),
            ({
                let t = index_price_topic_spec(instrument_id.venue@, instrument_id.symbol@);
                let h = handler_id_spec(self.actor_id@, t);
                match r {
                    Ok(()) => {
                        &&& self.is_registered()
                        &&& (has_key(self.topic_handlers_spec(), t) ==> final(bus).topic_subs(t)
                            == remove_sub(old(bus).topic_subs(t), h))
                        &&& (!has_key(self.topic_handlers_spec(), t) ==> final(bus).topic_subs(t)
                            == old(bus).topic_subs(t))
                        &&& (forall|t2: Seq<char>|
                            t2 != t ==> final(bus).topic_subs(t2) == old(bus).topic_subs(t2))
                        &&& final(bus).endpoints == old(bus).endpoints
                        &&& final(bus).correlations == old(bus).correlations
                        &&& (client_id is Some ==> {
                            &&& final(cmds).commands@.len() == old(cmds).commands@.len() + 1
                            &&& final(cmds).commands@.subrange(0, old(cmds).commands@.len() as int)
                                == old(cmds).commands@
                            &&& (final(cmds).commands@.last() matches DataCommand::Unsubscribe(
                                UnsubscribeCommand::IndexPrices(c),
                            ) && c.instrument_id == instrument_id && c.client_id == client_id && c.venue == Some(instrument_id.venue) && c.ts_init == clock.time_ns() && c.params == params)
                        })
                        &&& (client_id is None ==> *final(cmds) == *old(cmds))
                    },
                    Err(e) => {
                        &&& e == ActorError::NotRegistered
                        &&& !self.is_registered()
                        &&& *final(bus) == *old(bus)
                        &&& *final(switchboard) == *old(switchboard)
                        &&& *final(cmds) == *old(cmds)
                    },
                }
            }),
    {
        if self.trader_id.is_none() {
            return Err(ActorError::NotRegistered);
        }
        let topic = switchboard.get_index_price_topic(instrument_id.clone());
        match self.get_handler_for_topic(&topic) {
            Some(handler) => {
                bus.unsubscribe_topic(&topic, &handler);
            },
            None => {},
        }
        if client_id.is_none() {
            return Ok(());
        }
        let venue = Some(instrument_id.venue.clone());
        let command = UnsubscribeIndexPrices::new(instrument_id, client_id, venue, Uuid4::generate(), clock.timestamp_ns(), params);
        cmds.push(DataCommand::Unsubscribe(UnsubscribeCommand::IndexPrices(command)));
        Ok(())
    }

    /// Unsubscribes the actor from status updates of the instrument: exactly the handler it had
    /// stored for the topic is removed from the bus — with no prior
    /// subscription this is a no-op, not an error. Only when a client id
    /// names the owning engine client is the unsubscription command also
    /// queued for the data engine.
    pub fn unsubscribe_instrument_status(
        &self,
        bus: &mut MessageBus,
        switchboard: &mut MessagingSwitchboard,
        cmds: &mut DataCommandQueue,
        clock: &Clock,
        instrument_id: InstrumentId,
        client_id: Option<ClientId>,
        params: Option<Vec<(String, String)>>,
    ) -> (r: Result<(), ActorError>)
        requires
            self.wf(),
            old(bus).wf(),
            old(switchboard).wf(),
        ensures
            final(bus).wf(),
            final(switchboard).wf(),
            ({
                let t = instrument_status_topic_spec(instrument_id.venue@, instrument_id.symbol@);
                let h = handler_id_spec(self.actor_id@, t);
                match r {
                    Ok(()) => {
                        &&& self.is_registered()
                        &&& (has_key(self.topic_handlers_spec(), t) ==> final(bus).topic_subs(t)
                            == remove_sub(old(bus).topic_subs(t), h))
                        &&& (!has_key(self.topic_handlers_spec(), t) ==> final(bus).topic_subs(t)
                            == old(bus).topic_subs(t))
                        &&& (forall|t2: Seq<char>|
                            t2 != t ==> final(bus).topic_subs(t2) == old(bus).topic_subs(t2))
                        &&& final(bus).endpoints == old(bus).endpoints
                        &&& final(bus).correlations == old(bus).correlations
                        &&& (client_id is Some ==> {
                            &&& final(cmds).commands@.len() == old(cmds).commands@.len() + 1
                            &&& final(cmds).commands@.subrange(0, old(cmds).commands@.len() as int)
                                == old(cmds).commands@
                            &&& (final(cmds).commands@.last() matches DataCommand::Unsubscribe(
                                UnsubscribeCommand::InstrumentStatus(c),
                            ) && c.instrument_id == instrument_id && c.client_id == client_id && c.venue == Some(instrument_id.venue) && c.ts_init == clock.time_ns() && c.params == params)
                        })
                        &&& (client_id is None ==> *final(cmds) == *old(cmds))
                    },
                    Err(e) => {
                        &&& e == ActorError::NotRegistered
                        &&& !self.is_registered()
                        &&& *final(bus) == *old(bus)
                        &&& *final(switchboard) == *old(switchboard)
                        &&& *final(cmds) == *old(cmds)
                    },
                }
            }),
    {
        if self.trader_id.is_none() {
            return Err(ActorError::NotRegistered);
        }
        let topic = switchboard.get_instrument_status_topic(instrument_id.clone());
        match self.get_handler_for_topic(&topic) {
            Some(handler) => {
                bus.unsubscribe_topic(&topic, &handler);
            },
            None => {},
        }
        if client_id.is_none() {
            return Ok(());
        }
        let venue = Some(instrument_id.venue.clone());
        let command = UnsubscribeInstrumentStatus::new(instrument_id, client_id, venue, Uuid4::generate(), clock.timestamp_ns(), params);
        cmds.push(DataCommand::Unsubscribe(UnsubscribeCommand::InstrumentStatus(command)));
        Ok(())
    }

    /// Unsubscribes the actor from close updates of the instrument: exactly the handler it had
    /// stored for the topic is removed from the bus — with no prior
    /// subscription this is a no-op, not an error. Only when a client id
    /// names the owning engine client is the unsubscription command also
    /// queued for the data engine.
    pub fn unsubscribe_instrument_close(
        &self,
        bus: &mut MessageBus,
        switchboard: &mut MessagingSwitchboard,
        cmds: &mut DataCommandQueue,
        clock: &Clock,
        instrument_id: InstrumentId,
        client_id: Option<ClientId>,
        params: Option<Vec<(String, String)>>,
    ) -> (r: Result<(), ActorError>)
        requires
            self.wf(),
            old(bus).wf(),
            old(switchboard).wf(),
        ensures
            final(bus).wf(),
            final(switchboard).wf(),
            ({
                let t = instrument_close_topic_spec(instrument_id.venue@, instrument_id.symbol@);
                let h = handler_id_spec(self.actor_id@, t);
                match r {
                    Ok(()) => {
                        &&& self.is_registered()
                        &&& (has_key(self.topic_handlers_spec(), t) ==> final(bus).topic_subs(t)
                            == remove_sub(old(bus).topic_subs(t), h))
                        &&& (!has_key(self.topic_handlers_spec(), t) ==> final(bus).topic_subs(t)
                            == old(bus).topic_subs(t))
                        &&& (forall|t2: Seq<char>|
                            t2 != t ==> final(bus).topic_subs(t2) == old(bus).topic_subs(t2))
                        &&& final(bus).endpoints == old(bus).endpoints
                        &&& final(bus).correlations == old(bus).correlations
                        &&& (client_id is Some ==> {
                            &&& final(cmds).commands@.len() == old(cmds).commands@.len() + 1
                            &&& final(cmds).commands@.subrange(0, old(cmds).commands@.len() as int)
                                == old(cmds).commands@
                            &&& (final(cmds).commands@.last() matches DataCommand::Unsubscribe(
                                UnsubscribeCommand::InstrumentClose(c),
                            ) && c.instrument_id == instrument_id && c.client_id == client_id && c.venue == Some(instrument_id.venue) && c.ts_init == clock.time_ns() && c.params == params)
                        })
                        &&& (client_id is None ==> *final(cmds) == *old(cmds))
                    },
                    Err(e) => {
                        &&& e == ActorError::NotRegistered
                        &&& !self.is_registered()
                        &&& *final(bus) == *old(bus)
                        &&& *final(switchboard) == *old(switchboard)
                        &&& *final(cmds) == *old(cmds)
                    },
                }
            }),
    {
        if self.trader_id.is_none() {
            return Err(ActorError::NotRegistered);
        }
        let topic = switchboard.get_instrument_close_topic(instrument_id.clone());
        match self.get_handler_for_topic(&topic) {
            Some(handler) => {
                bus.unsubscribe_topic(&topic, &handler);
            },
            None => {},
        }
        if client_id.is_none() {
            return Ok(());
        }
        let venue = Some(instrument_id.venue.clone());
        let command = UnsubscribeInstrumentClose::new(instrument_id, client_id, venue, Uuid4::generate(), clock.timestamp_ns(), params);
        cmds.push(DataCommand::Unsubscribe(UnsubscribeCommand::InstrumentClose(command)));
        Ok(())
    }

    /// Requests custom historical data: a fresh correlation id is drawn, the actor's
    /// one-shot response handler is registered under it, and the request
    /// command is queued for the data engine. At most one response will
    /// ever be delivered for the returned id, to exactly the handler
    /// registered here.
    pub fn request_data(
        &self,
        bus: &mut MessageBus,
        cmds: &mut DataCommandQueue,
        clock: &Clock,
        data_type: DataType,
        client_id: ClientId,
        start: Option<u64>,
        end: Option<u64>,
        limit: Option<usize>,
        params: Option<Vec<(String, String)>>,
    ) -> (r: Result<Uuid4, ActorError>)
        requires
            self.wf(),
            old(bus).wf(),
        ensures
            final(bus).wf(),
            ({
                let h = handler_id_spec(self.actor_id@, "data"@);
                match r {
                    Ok(rid) => {
                        &&& self.is_registered()
                        &&& time_range_ok(start, end, clock.time_ns())
                        &&& !has_correlation(old(bus).correlations@, rid)
                        &&& final(bus).correlations@.len() == old(bus).correlations@.len() + 1
                        &&& final(bus).correlations@.subrange(
                            0,
                            old(bus).correlations@.len() as int,
                        ) == old(bus).correlations@
                        &&& final(bus).correlations@.last().0 == rid
                        &&& final(bus).correlations@.last().1@ == h
                        &&& final(bus).subscriptions == old(bus).subscriptions
                        &&& final(bus).endpoints == old(bus).endpoints
                        &&& final(cmds).commands@.len() == old(cmds).commands@.len() + 1
                        &&& final(cmds).commands@.subrange(0, old(cmds).commands@.len() as int)
                            == old(cmds).commands@
                        &&& (final(cmds).commands@.last() matches DataCommand::Request(
                            RequestCommand::Data(c),
                        ) && c.data_type == data_type && c.client_id == client_id && c.request_id == rid && c.ts_init == clock.time_ns() && c.params == params)
                    },
                    Err(e) => {
                        &&& *final(bus) == *old(bus)
                        &&& *final(cmds) == *old(cmds)
                        &&& (e == ActorError::NotRegistered <==> !self.is_registered())
                        &&& (e == ActorError::InvalidTimeRange ==> self.is_registered()
                            && !time_range_ok(start, end, clock.time_ns()))
                        &&& (self.is_registered() && !time_range_ok(start, end, clock.time_ns())
                            ==> e == ActorError::InvalidTimeRange)
                        &&& (e matches ActorError::DuplicateRequestId(rid) ==> self.is_registered()
                            && time_range_ok(start, end, clock.time_ns()) && has_correlation(
                            old(bus).correlations@,
                            rid,
                        ))
                        &&& (self.is_registered() && time_range_ok(start, end, clock.time_ns())
                            ==> (e matches ActorError::DuplicateRequestId(rid) && has_correlation(
                            old(bus).correlations@,
                            rid,
                        )))
                    },
                }
            }),
    {
        if self.trader_id.is_none() {
            return Err(ActorError::NotRegistered);
        }
        let now = clock.timestamp_ns();
        if !check_time_range(start, end, now) {
            return Err(ActorError::InvalidTimeRange);
        }
        let _ = limit;
        let request_id = Uuid4::generate();
        let mut s = String::from_str(self.actor_id.as_str());
        s.append(".");
        s.append("data");
        let handler = HandlerId::new(s);
        match bus.register_response_handler(request_id, handler) {
            Ok(()) => {},
            Err(_) => {
                return Err(ActorError::DuplicateRequestId(request_id));
            },
        }
        let command = RequestData {
            client_id,
            data_type,
            request_id,
            ts_init: now,
            params,
        };
        cmds.push(DataCommand::Request(RequestCommand::Data(command)));
        Ok(request_id)
    }

    /// Requests one instrument's definition: a fresh correlation id is drawn, the actor's
    /// one-shot response handler is registered under it, and the request
    /// command is queued for the data engine. At most one response will
    /// ever be delivered for the returned id, to exactly the handler
    /// registered here.
    pub fn request_instrument(
        &self,
        bus: &mut MessageBus,
        cmds: &mut DataCommandQueue,
        clock: &Clock,
        instrument_id: InstrumentId,
        start: Option<u64>,
        end: Option<u64>,
        client_id: Option<ClientId>,
        params: Option<Vec<(String, String)>>,
    ) -> (r: Result<Uuid4, ActorError>)
        requires
            self.wf(),
            old(bus).wf(),
        ensures
            final(bus).wf(),
            ({
                let h = handler_id_spec(self.actor_id@, "instrument"@);
                match r {
                    Ok(rid) => {
                        &&& self.is_registered()
                        &&& time_range_ok(start, end, clock.time_ns())
                        &&& !has_correlation(old(bus).correlations@, rid)
                        &&& final(bus).correlations@.len() == old(bus).correlations@.len() + 1
                        &&& final(bus).correlations@.subrange(
                            0,
                            old(bus).correlations@.len() as int,
                        ) == old(bus).correlations@
                        &&& final(bus).correlations@.last().0 == rid
                        &&& final(bus).correlations@.last().1@ == h
                        &&& final(bus).subscriptions == old(bus).subscriptions
                        &&& final(bus).endpoints == old(bus).endpoints
                        &&& final(cmds).commands@.len() == old(cmds).commands@.len() + 1
                        &&& final(cmds).commands@.subrange(0, old(cmds).commands@.len() as int)
                            == old(cmds).commands@
                        &&& (final(cmds).commands@.last() matches DataCommand::Request(
                            RequestCommand::Instrument(c),
                        ) && c.instrument_id == instrument_id && c.start == start && c.end == end && c.client_id == client_id && c.request_id == rid && c.ts_init == clock.time_ns() && c.params == params)
                    },
                    Err(e) => {
                        &&& *final(bus) == *old(bus)
                        &&& *final(cmds) == *old(cmds)
                        &&& (e == ActorError::NotRegistered <==> !self.is_registered())
                        &&& (e == ActorError::InvalidTimeRange ==> self.is_registered()
                            && !time_range_ok(start, end, clock.time_ns()))
                        &&& (self.is_registered() && !time_range_ok(start, end, clock.time_ns())
                            ==> e == ActorError::InvalidTimeRange)
                        &&& (e matches ActorError::DuplicateRequestId(rid) ==> self.is_registered()
                            && time_range_ok(start, end, clock.time_ns()) && has_correlation(
                            old(bus).correlations@,
                            rid,
                        ))
                        &&& (self.is_registered() && time_range_ok(start, end, clock.time_ns())
                            ==> (e matches ActorError::DuplicateRequestId(rid) && has_correlation(
                            old(bus).correlations@,
                            rid,
                        )))
                    },
                }
            }),
    {
        if self.trader_id.is_none() {
            return Err(ActorError::NotRegistered);
        }
        let now = clock.timestamp_ns();
        if !check_time_range(start, end, now) {
            return Err(ActorError::InvalidTimeRange);
        }
        let request_id = Uuid4::generate();
        let mut s = String::from_str(self.actor_id.as_str());
        s.append(".");
        s.append("instrument");
        let handler = HandlerId::new(s);
        match bus.register_response_handler(request_id, handler) {
            Ok(()) => {},
            Err(_) => {
                return Err(ActorError::DuplicateRequestId(request_id));
            },
        }
        let command = RequestInstrument::new(
            instrument_id,
            start,
            end,
            client_id,
            request_id,
            now,
            params,
        );
        cmds.push(DataCommand::Request(RequestCommand::Instrument(command)));
        Ok(request_id)
    }

    /// Requests the instrument definitions of a venue: a fresh correlation id is drawn, the actor's
    /// one-shot response handler is registered under it, and the request
    /// command is queued for the data engine. At most one response will
    /// ever be delivered for the returned id, to exactly the handler
    /// registered here.
    pub fn request_instruments(
        &self,
        bus: &mut MessageBus,
        cmds: &mut DataCommandQueue,
        clock: &Clock,
        venue: Option<Venue>,
        start: Option<u64>,
        end: Option<u64>,
        client_id: Option<ClientId>,
        params: Option<Vec<(String, String)>>,
    ) -> (r: Result<Uuid4, ActorError>)
        requires
            self.wf(),
            old(bus).wf(),
            client_id is Some || venue is Some,
        ensures
            final(bus).wf(),
            ({
                let h = handler_id_spec(self.actor_id@, "instruments"@);
                match r {
                    Ok(rid) => {
                        &&& self.is_registered()
                        &&& time_range_ok(start, end, clock.time_ns())
                        &&& !has_correlation(old(bus).correlations@, rid)
                        &&& final(bus).correlations@.len() == old(bus).correlations@.len() + 1
                        &&& final(bus).correlations@.subrange(
                            0,
                            old(bus).correlations@.len() as int,
                        ) == old(bus).correlations@
                        &&& final(bus).correlations@.last().0 == rid
                        &&& final(bus).correlations@.last().1@ == h
                        &&& final(bus).subscriptions == old(bus).subscriptions
                        &&& final(bus).endpoints == old(bus).endpoints
                        &&& final(cmds).commands@.len() == old(cmds).commands@.len() + 1
                        &&& final(cmds).commands@.subrange(0, old(cmds).commands@.len() as int)
                            == old(cmds).commands@
                        &&& (final(cmds).commands@.last() matches DataCommand::Request(
                            RequestCommand::Instruments(c),
                        ) && c.venue == venue && c.start == start && c.end == end && c.client_id == client_id && c.request_id == rid && c.ts_init == clock.time_ns() && c.params == params)
                    },
                    Err(e) => {
                        &&& *final(bus) == *old(bus)
                        &&& *final(cmds) == *old(cmds)
                        &&& (e == ActorError::NotRegistered <==> !self.is_registered())
                        &&& (e == ActorError::InvalidTimeRange ==> self.is_registered()
                            && !time_range_ok(start, end, clock.time_ns()))
                        &&& (self.is_registered() && !time_range_ok(start, end, clock.time_ns())
                            ==> e == ActorError::InvalidTimeRange)
                        &&& (e matches ActorError::DuplicateRequestId(rid) ==> self.is_registered()
                            && time_range_ok(start, end, clock.time_ns()) && has_correlation(
                            old(bus).correlations@,
                            rid,
                        ))
                        &&& (self.is_registered() && time_range_ok(start, end, clock.time_ns())
                            ==> (e matches ActorError::DuplicateRequestId(rid) && has_correlation(
                            old(bus).correlations@,
                            rid,
                        )))
                    },
                }
            }),
    {
        if self.trader_id.is_none() {
            return Err(ActorError::NotRegistered);
        }
        let now = clock.timestamp_ns();
        if !check_time_range(start, end, now) {
            return Err(ActorError::InvalidTimeRange);
        }
        let request_id = Uuid4::generate();
        let mut s = String::from_str(self.actor_id.as_str());
        s.append(".");
        s.append("instruments");
        let handler = HandlerId::new(s);
        match bus.register_response_handler(request_id, handler) {
            Ok(()) => {},
            Err(_) => {
                return Err(ActorError::DuplicateRequestId(request_id));
            },
        }
        let command = RequestInstruments::new(
            start,
            end,
            client_id,
            venue,
            request_id,
            now,
            params,
        );
        cmds.push(DataCommand::Request(RequestCommand::Instruments(command)));
        Ok(request_id)
    }

    /// Requests a snapshot of the instrument's order book: a fresh correlation id is drawn, the actor's
    /// one-shot response handler is registered under it, and the request
    /// command is queued for the data engine. At most one response will
    /// ever be delivered for the returned id, to exactly the handler
    /// registered here.
    pub fn request_book_snapshot(
        &self,
        bus: &mut MessageBus,
        cmds: &mut DataCommandQueue,
        clock: &Clock,
        instrument_id: InstrumentId,
        depth: Option<usize>,
        client_id: Option<ClientId>,
        params: Option<Vec<(String, String)>>,
    ) -> (r: Result<Uuid4, ActorError>)
        requires
            self.wf(),
            old(bus).wf(),
            depth matches Some(d) ==> d > 0,
        ensures
            final(bus).wf(),
            ({
                let h = handler_id_spec(self.actor_id@, "book"@);
                match r {
                    Ok(rid) => {
                        &&& self.is_registered()
                        &&& !has_correlation(old(bus).correlations@, rid)
                        &&& final(bus).correlations@.len() == old(bus).correlations@.len() + 1
                        &&& final(bus).correlations@.subrange(
                            0,
                            old(bus).correlations@.len() as int,
                        ) == old(bus).correlations@
                        &&& final(bus).correlations@.last().0 == rid
                        &&& final(bus).correlations@.last().1@ == h
                        &&& final(bus).subscriptions == old(bus).subscriptions
                        &&& final(bus).endpoints == old(bus).endpoints
                        &&& final(cmds).commands@.len() == old(cmds).commands@.len() + 1
                        &&& final(cmds).commands@.subrange(0, old(cmds).commands@.len() as int)
                            == old(cmds).commands@
                        &&& (final(cmds).commands@.last() matches DataCommand::Request(
                            RequestCommand::BookSnapshot(c),
                        ) && c.instrument_id == instrument_id && c.depth == depth && c.client_id == client_id && c.request_id == rid && c.ts_init == clock.time_ns() && c.params == params)
                    },
                    Err(e) => {
                        &&& *final(bus) == *old(bus)
                        &&& *final(cmds) == *old(cmds)
                        &&& (e == ActorError::NotRegistered <==> !self.is_registered())
                        &&& (e matches ActorError::DuplicateRequestId(rid) ==> self.is_registered()
                            && has_correlation(old(bus).correlations@, rid))
                        &&& (self.is_registered() ==> (e matches ActorError::DuplicateRequestId(
                            rid,
                        ) && has_correlation(old(bus).correlations@, rid)))
                    },
                }
            }),
    {
        if self.trader_id.is_none() {
            return Err(ActorError::NotRegistered);
        }
        let now = clock.timestamp_ns();
        let request_id = Uuid4::generate();
        let mut s = String::from_str(self.actor_id.as_str());
        s.append(".");
        s.append("book");
        let handler = HandlerId::new(s);
        match bus.register_response_handler(request_id, handler) {
            Ok(()) => {},
            Err(_) => {
                return Err(ActorError::DuplicateRequestId(request_id));
            },
        }
        let command = RequestBookSnapshot::new(
            instrument_id,
            depth,
            client_id,
            request_id,
            now,
            params,
        );
        cmds.push(DataCommand::Request(RequestCommand::BookSnapshot(command)));
        Ok(request_id)
    }

    /// Requests historical trades: a fresh correlation id is drawn, the actor's
    /// one-shot response handler is registered under it, and the request
    /// command is queued for the data engine. At most one response will
    /// ever be delivered for the returned id, to exactly the handler
    /// registered here.
    pub fn request_trades(
        &self,
        bus: &mut MessageBus,
        cmds: &mut DataCommandQueue,
        clock: &Clock,
        instrument_id: InstrumentId,
        start: Option<u64>,
        end: Option<u64>,
        limit: Option<usize>,
        client_id: Option<ClientId>,
        params: Option<Vec<(String, String)>>,
    ) -> (r: Result<Uuid4, ActorError>)
        requires
            self.wf(),
            old(bus).wf(),
            limit matches Some(l) ==> l > 0,
        ensures
            final(bus).wf(),
            ({
                let h = handler_id_spec(self.actor_id@, "trades"@);
                match r {
                    Ok(rid) => {
                        &&& self.is_registered()
                        &&& time_range_ok(start, end, clock.time_ns())
                        &&& !has_correlation(old(bus).correlations@, rid)
                        &&& final(bus).correlations@.len() == old(bus).correlations@.len() + 1
                        &&& final(bus).correlations@.subrange(
                            0,
                            old(bus).correlations@.len() as int,
                        ) == old(bus).correlations@
                        &&& final(bus).correlations@.last().0 == rid
                        &&& final(bus).correlations@.last().1@ == h
                        &&& final(bus).subscriptions == old(bus).subscriptions
                        &&& final(bus).endpoints == old(bus).endpoints
                        &&& final(cmds).commands@.len() == old(cmds).commands@.len() + 1
                        &&& final(cmds).commands@.subrange(0, old(cmds).commands@.len() as int)
                            == old(cmds).commands@
                        &&& (final(cmds).commands@.last() matches DataCommand::Request(
                            RequestCommand::Trades(c),
                        ) && c.instrument_id == instrument_id && c.start == start && c.end == end && c.limit == limit && c.client_id == client_id && c.request_id == rid && c.ts_init == clock.time_ns() && c.params == params)
                    },
                    Err(e) => {
                        &&& *final(bus) == *old(bus)
                        &&& *final(cmds) == *old(cmds)
                        &&& (e == ActorError::NotRegistered <==> !self.is_registered())
                        &&& (e == ActorError::InvalidTimeRange ==> self.is_registered()
                            && !time_range_ok(start, end, clock.time_ns()))
                        &&& (self.is_registered() && !time_range_ok(start, end, clock.time_ns())
                            ==> e == ActorError::InvalidTimeRange)
                        &&& (e matches ActorError::DuplicateRequestId(rid) ==> self.is_registered()
                            && time_range_ok(start, end, clock.time_ns()) && has_correlation(
                            old(bus).correlations@,
                            rid,
                        ))
                        &&& (self.is_registered() && time_range_ok(start, end, clock.time_ns())
                            ==> (e matches ActorError::DuplicateRequestId(rid) && has_correlation(
                            old(bus).correlations@,
                            rid,
                        )))
                    },
                }
            }),
    {
        if self.trader_id.is_none() {
            return Err(ActorError::NotRegistered);
        }
        let now = clock.timestamp_ns();
        if !check_time_range(start, end, now) {
            return Err(ActorError::InvalidTimeRange);
        }
        let request_id = Uuid4::generate();
        let mut s = String::from_str(self.actor_id.as_str());
        s.append(".");
        s.append("trades");
        let handler = HandlerId::new(s);
        match bus.register_response_handler(request_id, handler) {
            Ok(()) => {},
            Err(_) => {
                return Err(ActorError::DuplicateRequestId(request_id));
            },
        }
        let command = RequestTrades::new(
            instrument_id,
            start,
            end,
            limit,
            client_id,
            request_id,
            now,
            params,
        );
        cmds.push(DataCommand::Request(RequestCommand::Trades(command)));
        Ok(request_id)
    }

    /// Requests historical bars: a fresh correlation id is drawn, the actor's
    /// one-shot response handler is registered under it, and the request
    /// command is queued for the data engine. At most one response will
    /// ever be delivered for the returned id, to exactly the handler
    /// registered here.
    pub fn request_bars(
        &self,
        bus: &mut MessageBus,
        cmds: &mut DataCommandQueue,
        clock: &Clock,
        bar_type: BarType,
        start: Option<u64>,
        end: Option<u64>,
        limit: Option<usize>,
        client_id: Option<ClientId>,
        params: Option<Vec<(String, String)>>,
    ) -> (r: Result<Uuid4, ActorError>)
        requires
            self.wf(),
            old(bus).wf(),
            limit matches Some(l) ==> l > 0,
        ensures
            final(bus).wf(),
            ({
                let h = handler_id_spec(self.actor_id@, "bars"@);
                match r {
                    Ok(rid) => {
                        &&& self.is_registered()
                        &&& time_range_ok(start, end, clock.time_ns())
                        &&& !has_correlation(old(bus).correlations@, rid)
                        &&& final(bus).correlations@.len() == old(bus).correlations@.len() + 1
                        &&& final(bus).correlations@.subrange(
                            0,
                            old(bus).correlations@.len() as int,
                        ) == old(bus).correlations@
                        &&& final(bus).correlations@.last().0 == rid
                        &&& final(bus).correlations@.last().1@ == h
                        &&& final(bus).subscriptions == old(bus).subscriptions
                        &&& final(bus).endpoints == old(bus).endpoints
                        &&& final(cmds).commands@.len() == old(cmds).commands@.len() + 1
                        &&& final(cmds).commands@.subrange(0, old(cmds).commands@.len() as int)
                            == old(cmds).commands@
                        &&& (final(cmds).commands@.last() matches DataCommand::Request(
                            RequestCommand::Bars(c),
                        ) && c.bar_type == bar_type && c.start == start && c.end == end && c.limit == limit && c.client_id == client_id && c.request_id == rid && c.ts_init == clock.time_ns() && c.params == params)
                    },
                    Err(e) => {
                        &&& *final(bus) == *old(bus)
                        &&& *final(cmds) == *old(cmds)
                        &&& (e == ActorError::NotRegistered <==> !self.is_registered())
                        &&& (e == ActorError::InvalidTimeRange ==> self.is_registered()
                            && !time_range_ok(start, end, clock.time_ns()))
                        &&& (self.is_registered() && !time_range_ok(start, end, clock.time_ns())
                            ==> e == ActorError::InvalidTimeRange)
                        &&& (e matches ActorError::DuplicateRequestId(rid) ==> self.is_registered()
                            && time_range_ok(start, end, clock.time_ns()) && has_correlation(
                            old(bus).correlations@,
                            rid,
                        ))
                        &&& (self.is_registered() && time_range_ok(start, end, clock.time_ns())
                            ==> (e matches ActorError::DuplicateRequestId(rid) && has_correlation(
                            old(bus).correlations@,
                            rid,
                        )))
                    },
                }
            }),
    {
        if self.trader_id.is_none() {
            return Err(ActorError::NotRegistered);
        }
        let now = clock.timestamp_ns();
        if !check_time_range(start, end, now) {
            return Err(ActorError::InvalidTimeRange);
        }
        let request_id = Uuid4::generate();
        let mut s = String::from_str(self.actor_id.as_str());
        s.append(".");
        s.append("bars");
        let handler = HandlerId::new(s);
        match bus.register_response_handler(request_id, handler) {
            Ok(()) => {},
            Err(_) => {
                return Err(ActorError::DuplicateRequestId(request_id));
            },
        }
        let command = RequestBars::new(
            bar_type,
            start,
            end,
            limit,
            client_id,
            request_id,
            now,
            params,
        );
        cmds.push(DataCommand::Request(RequestCommand::Bars(command)));
        Ok(request_id)
    }

    /// Subscribes the actor to new blocks of the chain: its handler for the topic is
    /// created once and registered on the bus once — subscribing twice
    /// leaves one map entry and one bus subscription. Only when a client id
    /// names the owning engine client is the subscription command also
    /// queued for the data engine; without one the subscription is purely
    /// local. An unregistered actor must not subscribe: that fails
    /// explicitly.
    pub fn subscribe_blocks(
        &mut self,
        bus: &mut MessageBus,
        switchboard: &mut MessagingSwitchboard,
        cmds: &mut DataCommandQueue,
        clock: &Clock,
        chain: Blockchain,
        client_id: Option<ClientId>,
        params: Option<Vec<(String, String)>>,
    ) -> (r: Result<(), ActorError>)
        requires
            old(self).wf(),
            old(bus).wf(),
            old(switchboard).wf(),
        ensures
            final(self).wf(),
            final(bus).wf(),
            final(switchboard).wf(),
            ({
                let t = defi_blocks_topic_spec(blockchain_name_spec(chain));
                let h = handler_id_spec(old(self).actor_id@, t);
                match r {
                    Ok(()) => {
                        &&& old(self).is_registered()
                        &&& (has_key(old(self).topic_handlers_spec(), t) ==> final(self).topic_handlers_spec() == old(self).topic_handlers_spec())
                        &&& (!has_key(old(self).topic_handlers_spec(), t) ==> final(self).topic_handlers_spec().len() == old(self).topic_handlers_spec().len() + 1)
                        &&& has_key(final(self).topic_handlers_spec(), t)
                        &&& final(self).actor_id == old(self).actor_id
                        &&& final(self).trader_id == old(self).trader_id
                        &&& final(self).state == old(self).state
                        &&& has_handler(final(bus).topic_subs(t), h)
                        &&& final(bus).topic_subs(t).len() == old(bus).topic_subs(t).len() + (
                        if has_handler(old(bus).topic_subs(t), h) {
                            0int
                        } else {
                            1int
                        })
                        &&& (forall|t2: Seq<char>|
                            t2 != t ==> final(bus).topic_subs(t2) == old(bus).topic_subs(t2))
                        &&& final(bus).endpoints == old(bus).endpoints
                        &&& final(bus).correlations == old(bus).correlations
                        &&& (client_id is Some ==> {
                            &&& final(cmds).commands@.len() == old(cmds).commands@.len() + 1
                            &&& final(cmds).commands@.subrange(
                                0,
                                old(cmds).commands@.len() as int,
                            ) == old(cmds).commands@
                            &&& (final(cmds).commands@.last() matches DataCommand::DefiSubscribe(
                                DefiSubscribeCommand::Blocks(c),
                            ) && c.chain == chain && c.client_id == client_id && c.ts_init == clock.time_ns() && c.params
                                == params)
                        })
                        &&& (client_id is None ==> *final(cmds) == *old(cmds))
                    },
                    Err(e) => {
                        &&& e == ActorError::NotRegistered
                        &&& !old(self).is_registered()
                        &&& *final(self) == *old(self)
                        &&& *final(bus) == *old(bus)
                        &&& *final(switchboard) == *old(switchboard)
                        &&& *final(cmds) == *old(cmds)
                    },
                }
            }),
    {
        if self.trader_id.is_none() {
            return Err(ActorError::NotRegistered);
        }
        let topic = switchboard.get_defi_blocks_topic(chain);
        let handler = self.get_or_create_handler_for_topic(&topic);
        let ghost subs0 = bus.topic_subs(topic@);
        let ghost subv = Subscription { handler: handler, priority: 0u8 };
        bus.subscribe_topic(topic, handler, 0);
        proof {
            if !has_handler(subs0, subv.handler@) {
                lemma_insert_sub_has_handler(subs0, subv);
            }
        }
        if client_id.is_none() {
            return Ok(());
        }
        let command = SubscribeBlocks::new(chain, client_id, Uuid4::generate(), clock.timestamp_ns(), params);
        cmds.push(DataCommand::DefiSubscribe(DefiSubscribeCommand::Blocks(command)));
        Ok(())
    }

    /// Subscribes the actor to the pool's definition updates: its handler for the topic is
    /// created once and registered on the bus once — subscribing twice
    /// leaves one map entry and one bus subscription. Only when a client id
    /// names the owning engine client is the subscription command also
    /// queued for the data engine; without one the subscription is purely
    /// local. An unregistered actor must not subscribe: that fails
    /// explicitly.
    pub fn subscribe_pool(
        &mut self,
        bus: &mut MessageBus,
        switchboard: &mut MessagingSwitchboard,
        cmds: &mut DataCommandQueue,
        clock: &Clock,
        instrument_id: InstrumentId,
        client_id: Option<ClientId>,
        params: Option<Vec<(String, String)>>,
    ) -> (r: Result<(), ActorError>)
        requires
            old(self).wf(),
            old(bus).wf(),
            old(switchboard).wf(),
        ensures
            final(self).wf(),
            final(bus).wf(),
            final(switchboard).wf(),
            ({
                let t = defi_pool_topic_spec(instrument_id.symbol@, instrument_id.venue@);
                let h = handler_id_spec(old(self).actor_id@, t);
                match r {
                    Ok(()) => {
                        &&& old(self).is_registered()
                        &&& (has_key(old(self).topic_handlers_spec(), t) ==> final(self).topic_handlers_spec() == old(self).topic_handlers_spec())
                        &&& (!has_key(old(self).topic_handlers_spec(), t) ==> final(self).topic_handlers_spec().len() == old(self).topic_handlers_spec().len() + 1)
                        &&& has_key(final(self).topic_handlers_spec(), t)
                        &&& final(self).actor_id == old(self).actor_id
                        &&& final(self).trader_id == old(self).trader_id
                        &&& final(self).state == old(self).state
                        &&& has_handler(final(bus).topic_subs(t), h)
                        &&& final(bus).topic_subs(t).len() == old(bus).topic_subs(t).len() + (
                        if has_handler(old(bus).topic_subs(t), h) {
                            0int
                        } else {
                            1int
                        })
                        &&& (forall|t2: Seq<char>|
                            t2 != t ==> final(bus).topic_subs(t2) == old(bus).topic_subs(t2))
                        &&& final(bus).endpoints == old(bus).endpoints
                        &&& final(bus).correlations == old(bus).correlations
                        &&& (client_id is Some ==> {
                            &&& final(cmds).commands@.len() == old(cmds).commands@.len() + 1
                            &&& final(cmds).commands@.subrange(
                                0,
                                old(cmds).commands@.len() as int,
                            ) == old(cmds).commands@
                            &&& (final(cmds).commands@.last() matches DataCommand::DefiSubscribe(
                                DefiSubscribeCommand::Pool(c),
                            ) && c.instrument_id == instrument_id && c.client_id == client_id && c.ts_init == clock.time_ns() && c.params
                                == params)
                        })
                        &&& (client_id is None ==> *final(cmds) == *old(cmds))
                    },
                    Err(e) => {
                        &&& e == ActorError::NotRegistered
                        &&& !old(self).is_registered()
                        &&& *final(self) == *old(self)
                        &&& *final(bus) == *old(bus)
                        &&& *final(switchboard) == *old(switchboard)
                        &&& *final(cmds) == *old(cmds)
                    },
                }
            }),
    {
        if self.trader_id.is_none() {
            return Err(ActorError::NotRegistered);
        }
        let topic = switchboard.get_defi_pool_topic(instrument_id.clone());
        let handler = self.get_or_create_handler_for_topic(&topic);
        let ghost subs0 = bus.topic_subs(topic@);
        let ghost subv = Subscription { handler: handler, priority: 0u8 };
        bus.subscribe_topic(topic, handler, 0);
        proof {
            if !has_handler(subs0, subv.handler@) {
                lemma_insert_sub_has_handler(subs0, subv);
            }
        }
        if client_id.is_none() {
            return Ok(());
        }
        let command = SubscribePool::new(instrument_id, client_id, Uuid4::generate(), clock.timestamp_ns(), params);
        cmds.push(DataCommand::DefiSubscribe(DefiSubscribeCommand::Pool(command)));
        Ok(())
    }

    /// Subscribes the actor to swaps against the pool: its handler for the topic is
    /// created once and registered on the bus once — subscribing twice
    /// leaves one map entry and one bus subscription. Only when a client id
    /// names the owning engine client is the subscription command also
    /// queued for the data engine; without one the subscription is purely
    /// local. An unregistered actor must not subscribe: that fails
    /// explicitly.
    pub fn subscribe_pool_swaps(
        &mut self,
        bus: &mut MessageBus,
        switchboard: &mut MessagingSwitchboard,
        cmds: &mut DataCommandQueue,
        clock: &Clock,
        instrument_id: InstrumentId,
        client_id: Option<ClientId>,
        params: Option<Vec<(String, String)>>,
    ) -> (r: Result<(), ActorError>)
        requires
            old(self).wf(),
            old(bus).wf(),
            old(switchboard).wf(),
        ensures
            final(self).wf(),
            final(bus).wf(),
            final(switchboard).wf(),
            ({
                let t = defi_pool_swaps_topic_spec(instrument_id.symbol@, instrument_id.venue@);
                let h = handler_id_spec(old(self).actor_id@, t);
                match r {
                    Ok(()) => {
                        &&& old(self).is_registered()
                        &&& (has_key(old(self).topic_handlers_spec(), t) ==> final(self).topic_handlers_spec() == old(self).topic_handlers_spec())
                        &&& (!has_key(old(self).topic_handlers_spec(), t) ==> final(self).topic_handlers_spec().len() == old(self).topic_handlers_spec().len() + 1)
                        &&& has_key(final(self).topic_handlers_spec(), t)
                        &&& final(self).actor_id == old(self).actor_id
                        &&& final(self).trader_id == old(self).trader_id
                        &&& final(self).state == old(self).state
                        &&& has_handler(final(bus).topic_subs(t), h)
                        &&& final(bus).topic_subs(t).len() == old(bus).topic_subs(t).len() + (
                        if has_handler(old(bus).topic_subs(t), h) {
                            0int
                        } else {
                            1int
                        })
                        &&& (forall|t2: Seq<char>|
                            t2 != t ==> final(bus).topic_subs(t2) == old(bus).topic_subs(t2))
                        &&& final(bus).endpoints == old(bus).endpoints
                        &&& final(bus).correlations == old(bus).correlations
                        &&& (client_id is Some ==> {
                            &&& final(cmds).commands@.len() == old(cmds).commands@.len() + 1
                            &&& final(cmds).commands@.subrange(
                                0,
                                old(cmds).commands@.len() as int,
                            ) == old(cmds).commands@
                            &&& (final(cmds).commands@.last() matches DataCommand::DefiSubscribe(
                                DefiSubscribeCommand::PoolSwaps(c),
                            ) && c.instrument_id == instrument_id && c.client_id == client_id && c.ts_init == clock.time_ns() && c.params
                                == params)
                        })
                        &&& (client_id is None ==> *final(cmds) == *old(cmds))
                    },
                    Err(e) => {
                        &&& e == ActorError::NotRegistered
                        &&& !old(self).is_registered()
                        &&& *final(self) == *old(self)
                        &&& *final(bus) == *old(bus)
                        &&& *final(switchboard) == *old(switchboard)
                        &&& *final(cmds) == *old(cmds)
                    },
                }
            }),
    {
        if self.trader_id.is_none() {
            return Err(ActorError::NotRegistered);
        }
        let topic = switchboard.get_defi_pool_swaps_topic(instrument_id.clone());
        let handler = self.get_or_create_handler_for_topic(&topic);
        let ghost subs0 = bus.topic_subs(topic@);
        let ghost subv = Subscription { handler: handler, priority: 0u8 };
        bus.subscribe_topic(topic, handler, 0);
        proof {
            if !has_handler(subs0, subv.handler@) {
                lemma_insert_sub_has_handler(subs0, subv);
            }
        }
        if client_id.is_none() {
            return Ok(());
        }
        let command = SubscribePoolSwaps::new(instrument_id, client_id, Uuid4::generate(), clock.timestamp_ns(), params);
        cmds.push(DataCommand::DefiSubscribe(DefiSubscribeCommand::PoolSwaps(command)));
        Ok(())
    }

    /// Subscribes the actor to liquidity updates of the pool: its handler for the topic is
    /// created once and registered on the bus once — subscribing twice
    /// leaves one map entry and one bus subscription. Only when a client id
    /// names the owning engine client is the subscription command also
    /// queued for the data engine; without one the subscription is purely
    /// local. An unregistered actor must not subscribe: that fails
    /// explicitly.
    pub fn subscribe_pool_liquidity_updates(
        &mut self,
        bus: &mut MessageBus,
        switchboard: &mut MessagingSwitchboard,
        cmds: &mut DataCommandQueue,
        clock: &Clock,
        instrument_id: InstrumentId,
        client_id: Option<ClientId>,
        params: Option<Vec<(String, String)>>,
    ) -> (r: Result<(), ActorError>)
        requires
            old(self).wf(),
            old(bus).wf(),
            old(switchboard).wf(),
        ensures
            final(self).wf(),
            final(bus).wf(),
            final(switchboard).wf(),
            ({
                let t = defi_liquidity_topic_spec(instrument_id.symbol@, instrument_id.venue@);
                let h = handler_id_spec(old(self).actor_id@, t);
                match r {
                    Ok(()) => {
                        &&& old(self).is_registered()
                        &&& (has_key(old(self).topic_handlers_spec(), t) ==> final(self).topic_handlers_spec() == old(self).topic_handlers_spec())
                        &&& (!has_key(old(self).topic_handlers_spec(), t) ==> final(self).topic_handlers_spec().len() == old(self).topic_handlers_spec().len() + 1)
                        &&& has_key(final(self).topic_handlers_spec(), t)
                        &&& final(self).actor_id == old(self).actor_id
                        &&& final(self).trader_id == old(self).trader_id
                        &&& final(self).state == old(self).state
                        &&& has_handler(final(bus).topic_subs(t), h)
                        &&& final(bus).topic_subs(t).len() == old(bus).topic_subs(t).len() + (
                        if has_handler(old(bus).topic_subs(t), h) {
                            0int
                        } else {
                            1int
                        })
                        &&& (forall|t2: Seq<char>|
                            t2 != t ==> final(bus).topic_subs(t2) == old(bus).topic_subs(t2))
                        &&& final(bus).endpoints == old(bus).endpoints
                        &&& final(bus).correlations == old(bus).correlations
                        &&& (client_id is Some ==> {
                            &&& final(cmds).commands@.len() == old(cmds).commands@.len() + 1
                            &&& final(cmds).commands@.subrange(
                                0,
                                old(cmds).commands@.len() as int,
                            ) == old(cmds).commands@
                            &&& (final(cmds).commands@.last() matches DataCommand::DefiSubscribe(
                                DefiSubscribeCommand::PoolLiquidityUpdates(c),
                            ) && c.instrument_id == instrument_id && c.client_id == client_id && c.ts_init == clock.time_ns() && c.params
                                == params)
                        })
                        &&& (client_id is None ==> *final(cmds) == *old(cmds))
                    },
                    Err(e) => {
                        &&& e == ActorError::NotRegistered
                        &&& !old(self).is_registered()
                        &&& *final(self) == *old(self)
                        &&& *final(bus) == *old(bus)
                        &&& *final(switchboard) == *old(switchboard)
                        &&& *final(cmds) == *old(cmds)
                    },
                }
            }),
    {
        if self.trader_id.is_none() {
            return Err(ActorError::NotRegistered);
        }
        let topic = switchboard.get_defi_liquidity_topic(instrument_id.clone());
        let handler = self.get_or_create_handler_for_topic(&topic);
        let ghost subs0 = bus.topic_subs(topic@);
        let ghost subv = Subscription { handler: handler, priority: 0u8 };
        bus.subscribe_topic(topic, handler, 0);
        proof {
            if !has_handler(subs0, subv.handler@) {
                lemma_insert_sub_has_handler(subs0, subv);
            }
        }
        if client_id.is_none() {
            return Ok(());
        }
        let command = SubscribePoolLiquidityUpdates::new(instrument_id, client_id, Uuid4::generate(), clock.timestamp_ns(), params);
        cmds.push(DataCommand::DefiSubscribe(DefiSubscribeCommand::PoolLiquidityUpdates(command)));
        Ok(())
    }

    /// Unsubscribes the actor from new blocks of the chain: exactly the handler it had
    /// stored for the topic is removed from the bus — with no prior
    /// subscription this is a no-op, not an error. Only when a client id
    /// names the owning engine client is the unsubscription command also
    /// queued for the data engine.
    pub fn unsubscribe_blocks(
        &self,
        bus: &mut MessageBus,
        switchboard: &mut MessagingSwitchboard,
        cmds: &mut DataCommandQueue,
        clock: &Clock,
        chain: Blockchain,
        client_id: Option<ClientId>,
        params: Option<Vec<(String, String)>>,
    ) -> (r: Result<(), ActorError>)
        requires
            self.wf(),
            old(bus).wf(),
            old(switchboard).wf(),
        ensures
            final(bus).wf(),
            final(switchboard).wf(),
            ({
                let t = defi_blocks_topic_spec(blockchain_name_spec(chain));
                let h = handler_id_spec(self.actor_id@, t);
                match r {
                    Ok(()) => {
                        &&& self.is_registered()
                        &&& (has_key(self.topic_handlers_spec(), t) ==> final(bus).topic_subs(t)
                            == remove_sub(old(bus).topic_subs(t), h))
                        &&& (!has_key(self.topic_handlers_spec(), t) ==> final(bus).topic_subs(t)
                            == old(bus).topic_subs(t))
                        &&& (forall|t2: Seq<char>|
                            t2 != t ==> final(bus).topic_subs(t2) == old(bus).topic_subs(t2))
                        &&& final(bus).endpoints == old(bus).endpoints
                        &&& final(bus).correlations == old(bus).correlations
                        &&& (client_id is Some ==> {
                            &&& final(cmds).commands@.len() == old(cmds).commands@.len() + 1
                            &&& final(cmds).commands@.subrange(
                                0,
                                old(cmds).commands@.len() as int,
                            ) == old(cmds).commands@
                            &&& (final(cmds).commands@.last() matches DataCommand::DefiUnsubscribe(
                                DefiUnsubscribeCommand::Blocks(c),
                            ) && c.chain == chain && c.client_id == client_id && c.ts_init == clock.time_ns() && c.params
                                == params)
                        })
                        &&& (client_id is None ==> *final(cmds) == *old(cmds))
                    },
                    Err(e) => {
                        &&& e == ActorError::NotRegistered
                        &&& !self.is_registered()
                        &&& *final(bus) == *old(bus)
                        &&& *final(switchboard) == *old(switchboard)
                        &&& *final(cmds) == *old(cmds)
                    },
                }
            }),
    {
        if self.trader_id.is_none() {
            return Err(ActorError::NotRegistered);
        }
        let topic = switchboard.get_defi_blocks_topic(chain);
        match self.get_handler_for_topic(&topic) {
            Some(handler) => {
                bus.unsubscribe_topic(&topic, &handler);
            },
            None => {},
        }
        if client_id.is_none() {
            return Ok(());
        }
        let command = UnsubscribeBlocks::new(chain, client_id, Uuid4::generate(), clock.timestamp_ns(), params);
        cmds.push(DataCommand::DefiUnsubscribe(DefiUnsubscribeCommand::Blocks(command)));
        Ok(())
    }

    /// Unsubscribes the actor from the pool's definition updates: exactly the handler it had
    /// stored for the topic is removed from the bus — with no prior
    /// subscription this is a no-op, not an error. Only when a client id
    /// names the owning engine client is the unsubscription command also
    /// queued for the data engine.
    pub fn unsubscribe_pool(
        &self,
        bus: &mut MessageBus,
        switchboard: &mut MessagingSwitchboard,
        cmds: &mut DataCommandQueue,
        clock: &Clock,
        instrument_id: InstrumentId,
        client_id: Option<ClientId>,
        params: Option<Vec<(String, String)>>,
    ) -> (r: Result<(), ActorError>)
        requires
            self.wf(),
            old(bus).wf(),
            old(switchboard).wf(),
        ensures
            final(bus).wf(),
            final(switchboard).wf(),
            ({
                let t = defi_pool_topic_spec(instrument_id.symbol@, instrument_id.venue@);
                let h = handler_id_spec(self.actor_id@, t);
                match r {
                    Ok(()) => {
                        &&& self.is_registered()
                        &&& (has_key(self.topic_handlers_spec(), t) ==> final(bus).topic_subs(t)
                            == remove_sub(old(bus).topic_subs(t), h))
                        &&& (!has_key(self.topic_handlers_spec(), t) ==> final(bus).topic_subs(t)
                            == old(bus).topic_subs(t))
                        &&& (forall|t2: Seq<char>|
                            t2 != t ==> final(bus).topic_subs(t2) == old(bus).topic_subs(t2))
                        &&& final(bus).endpoints == old(bus).endpoints
                        &&& final(bus).correlations == old(bus).correlations
                        &&& (client_id is Some ==> {
                            &&& final(cmds).commands@.len() == old(cmds).commands@.len() + 1
                            &&& final(cmds).commands@.subrange(
                                0,
                                old(cmds).commands@.len() as int,
                            ) == old(cmds).commands@
                            &&& (final(cmds).commands@.last() matches DataCommand::DefiUnsubscribe(
                                DefiUnsubscribeCommand::Pool(c),
                            ) && c.instrument_id == instrument_id && c.client_id == client_id && c.ts_init == clock.time_ns() && c.params
                                == params)
                        })
                        &&& (client_id is None ==> *final(cmds) == *old(cmds))
                    },
                    Err(e) => {
                        &&& e == ActorError::NotRegistered
                        &&& !self.is_registered()
                        &&& *final(bus) == *old(bus)
                        &&& *final(switchboard) == *old(switchboard)
                        &&& *final(cmds) == *old(cmds)
                    },
                }
            }),
    {
        if self.trader_id.is_none() {
            return Err(ActorError::NotRegistered);
        }
        let topic = switchboard.get_defi_pool_topic(instrument_id.clone());
        match self.get_handler_for_topic(&topic) {
            Some(handler) => {
                bus.unsubscribe_topic(&topic, &handler);
            },
            None => {},
        }
        if client_id.is_none() {
            return Ok(());
        }
        let command = UnsubscribePool::new(instrument_id, client_id, Uuid4::generate(), clock.timestamp_ns(), params);
        cmds.push(DataCommand::DefiUnsubscribe(DefiUnsubscribeCommand::Pool(command)));
        Ok(())
    }

    /// Unsubscribes the actor from swaps against the pool: exactly the handler it had
    /// stored for the topic is removed from the bus — with no prior
    /// subscription this is a no-op, not an error. Only when a client id
    /// names the owning engine client is the unsubscription command also
    /// queued for the data engine.
    pub fn unsubscribe_pool_swaps(
        &self,
        bus: &mut MessageBus,
        switchboard: &mut MessagingSwitchboard,
        cmds: &mut DataCommandQueue,
        clock: &Clock,
        instrument_id: InstrumentId,
        client_id: Option<ClientId>,
        params: Option<Vec<(String, String)>>,
    ) -> (r: Result<(), ActorError>)
        requires
            self.wf(),
            old(bus).wf(),
            old(switchboard).wf(),
        ensures
            final(bus).wf(),
            final(switchboard).wf(),
            ({
                let t = defi_pool_swaps_topic_spec(instrument_id.symbol@, instrument_id.venue@);
                let h = handler_id_spec(self.actor_id@, t);
                match r {
                    Ok(()) => {
                        &&& self.is_registered()
                        &&& (has_key(self.topic_handlers_spec(), t) ==> final(bus).topic_subs(t)
                            == remove_sub(old(bus).topic_subs(t), h))
                        &&& (!has_key(self.topic_handlers_spec(), t) ==> final(bus).topic_subs(t)
                            == old(bus).topic_subs(t))
                        &&& (forall|t2: Seq<char>|
                            t2 != t ==> final(bus).topic_subs(t2) == old(bus).topic_subs(t2))
                        &&& final(bus).endpoints == old(bus).endpoints
                        &&& final(bus).correlations == old(bus).correlations
                        &&& (client_id is Some ==> {
                            &&& final(cmds).commands@.len() == old(cmds).commands@.len() + 1
                            &&& final(cmds).commands@.subrange(
                                0,
                                old(cmds).commands@.len() as int,
                            ) == old(cmds).commands@
                            &&& (final(cmds).commands@.last() matches DataCommand::DefiUnsubscribe(
                                DefiUnsubscribeCommand::PoolSwaps(c),
                            ) && c.instrument_id == instrument_id && c.client_id == client_id && c.ts_init == clock.time_ns() && c.params
                                == params)
                        })
                        &&& (client_id is None ==> *final(cmds) == *old(cmds))
                    },
                    Err(e) => {
                        &&& e == ActorError::NotRegistered
                        &&& !self.is_registered()
                        &&& *final(bus) == *old(bus)
                        &&& *final(switchboard) == *old(switchboard)
                        &&& *final(cmds) == *old(cmds)
                    },
                }
            }),
    {
        if self.trader_id.is_none() {
            return Err(ActorError::NotRegistered);
        }
        let topic = switchboard.get_defi_pool_swaps_topic(instrument_id.clone());
        match self.get_handler_for_topic(&topic) {
            Some(handler) => {
                bus.unsubscribe_topic(&topic, &handler);
            },
            None => {},
        }
        if client_id.is_none() {
            return Ok(());
        }
        let command = UnsubscribePoolSwaps::new(instrument_id, client_id, Uuid4::generate(), clock.timestamp_ns(), params);
        cmds.push(DataCommand::DefiUnsubscribe(DefiUnsubscribeCommand::PoolSwaps(command)));
        Ok(())
    }

    /// Unsubscribes the actor from liquidity updates of the pool: exactly the handler it had
    /// stored for the topic is removed from the bus — with no prior
    /// subscription this is a no-op, not an error. Only when a client id
    /// names the owning engine client is the unsubscription command also
    /// queued for the data engine.
    pub fn unsubscribe_pool_liquidity_updates(
        &self,
        bus: &mut MessageBus,
        switchboard: &mut MessagingSwitchboard,
        cmds: &mut DataCommandQueue,
        clock: &Clock,
        instrument_id: InstrumentId,
        client_id: Option<ClientId>,
        params: Option<Vec<(String, String)>>,
    ) -> (r: Result<(), ActorError>)
        requires
            self.wf(),
            old(bus).wf(),
            old(switchboard).wf(),
        ensures
            final(bus).wf(),
            final(switchboard).wf(),
            ({
                let t = defi_liquidity_topic_spec(instrument_id.symbol@, instrument_id.venue@);
                let h = handler_id_spec(self.actor_id@, t);
                match r {
                    Ok(()) => {
                        &&& self.is_registered()
                        &&& (has_key(self.topic_handlers_spec(), t) ==> final(bus).topic_subs(t)
                            == remove_sub(old(bus).topic_subs(t), h))
                        &&& (!has_key(self.topic_handlers_spec(), t) ==> final(bus).topic_subs(t)
                            == old(bus).topic_subs(t))
                        &&& (forall|t2: Seq<char>|
                            t2 != t ==> final(bus).topic_subs(t2) == old(bus).topic_subs(t2))
                        &&& final(bus).endpoints == old(bus).endpoints
                        &&& final(bus).correlations == old(bus).correlations
                        &&& (client_id is Some ==> {
                            &&& final(cmds).commands@.len() == old(cmds).commands@.len() + 1
                            &&& final(cmds).commands@.subrange(
                                0,
                                old(cmds).commands@.len() as int,
                            ) == old(cmds).commands@
                            &&& (final(cmds).commands@.last() matches DataCommand::DefiUnsubscribe(
                                DefiUnsubscribeCommand::PoolLiquidityUpdates(c),
                            ) && c.instrument_id == instrument_id && c.client_id == client_id && c.ts_init == clock.time_ns() && c.params
                                == params)
                        })
                        &&& (client_id is None ==> *final(cmds) == *old(cmds))
                    },
                    Err(e) => {
                        &&& e == ActorError::NotRegistered
                        &&& !self.is_registered()
                        &&& *final(bus) == *old(bus)
                        &&& *final(switchboard) == *old(switchboard)
                        &&& *final(cmds) == *old(cmds)
                    },
                }
            }),
    {
        if self.trader_id.is_none() {
            return Err(ActorError::NotRegistered);
        }
        let topic = switchboard.get_defi_liquidity_topic(instrument_id.clone());
        match self.get_handler_for_topic(&topic) {
            Some(handler) => {
                bus.unsubscribe_topic(&topic, &handler);
            },
            None => {},
        }
        if client_id.is_none() {
            return Ok(());
        }
        let command = UnsubscribePoolLiquidityUpdates::new(instrument_id, client_id, Uuid4::generate(), clock.timestamp_ns(), params);
        cmds.push(DataCommand::DefiUnsubscribe(DefiUnsubscribeCommand::PoolLiquidityUpdates(command)));
        Ok(())
    }
}

/// Whether the request bounds satisfy the time-range rule at `now`.
fn check_time_range(start: Option<u64>, end: Option<u64>, now: u64) -> (r: bool)
    ensures
        r == time_range_ok(start, end, now),
{
    let start_ok = match start {
        Some(s) => s <= now,
        None => true,
    };
    let end_ok = match end {
        Some(e) => e <= now,
        None => true,
    };
    let window_ok = match (start, end) {
        (Some(s), Some(e)) => s < e,
        _ => true,
    };
    start_ok && end_ok && window_ok
}

} // verus!
