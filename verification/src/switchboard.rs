//! The switchboard: the memoizing registry that deterministically builds and
//! interns topic and endpoint names. Repeated lookups for an equal key return
//! an equal interned topic, so routing can compare topics cheaply, and a
//! second lookup never grows the backing table.

use vstd::prelude::*;
use crate::chain::{blockchain_name_spec, Blockchain};
use crate::ids::{
    BarType, ClientOrderId, DataType, InstrumentId, PositionId, StrategyId, Venue,
};
use crate::msgbus::{Endpoint, Topic};

verus! {

/// The topic for custom data of type `data_type`.
pub open spec fn custom_topic_spec(data_type: Seq<char>) -> Seq<char> {
    "data."@ + data_type
}

/// The topic for all instrument definitions of a venue.
pub open spec fn instruments_topic_spec(venue: Seq<char>) -> Seq<char> {
    "data.instrument."@ + venue
}

/// The topic for one instrument's definition updates.
pub open spec fn instrument_topic_spec(venue: Seq<char>, symbol: Seq<char>) -> Seq<char> {
    "data.instrument."@ + venue + "."@ + symbol
}

/// The topic for order book deltas of an instrument.
pub open spec fn book_deltas_topic_spec(venue: Seq<char>, symbol: Seq<char>) -> Seq<char> {
    "data.book.deltas."@ + venue + "."@ + symbol
}

/// The topic for ten-level book depth of an instrument.
pub open spec fn book_depth10_topic_spec(venue: Seq<char>, symbol: Seq<char>) -> Seq<char> {
    "data.book.depth10."@ + venue + "."@ + symbol
}

/// The topic for periodic book snapshots of an instrument.
pub open spec fn book_snapshots_topic_spec(venue: Seq<char>, symbol: Seq<char>) -> Seq<char> {
    "data.book.snapshots."@ + venue + "."@ + symbol
}

/// The topic for quotes of an instrument.
pub open spec fn quotes_topic_spec(venue: Seq<char>, symbol: Seq<char>) -> Seq<char> {
    "data.quotes."@ + venue + "."@ + symbol
}

/// The topic for trades of an instrument.
pub open spec fn trades_topic_spec(venue: Seq<char>, symbol: Seq<char>) -> Seq<char> {
    "data.trades."@ + venue + "."@ + symbol
}

/// The topic for bars of a bar type.
pub open spec fn bars_topic_spec(symbol: Seq<char>, venue: Seq<char>, bar_spec: Seq<char>) -> Seq<
    char,
> {
    "data.bars."@ + symbol + "."@ + venue + "-"@ + bar_spec
}

/// The topic for mark price updates of an instrument.
pub open spec fn mark_price_topic_spec(venue: Seq<char>, symbol: Seq<char>) -> Seq<char> {
    "data.mark_prices."@ + venue + "."@ + symbol
}

/// The topic for index price updates of an instrument.
pub open spec fn index_price_topic_spec(venue: Seq<char>, symbol: Seq<char>) -> Seq<char> {
    "data.index_prices."@ + venue + "."@ + symbol
}

/// The topic for status updates of an instrument.
pub open spec fn instrument_status_topic_spec(venue: Seq<char>, symbol: Seq<char>) -> Seq<char> {
    "data.status."@ + venue + "."@ + symbol
}

/// The topic for close updates of an instrument.
pub open spec fn instrument_close_topic_spec(venue: Seq<char>, symbol: Seq<char>) -> Seq<char> {
    "data.close."@ + venue + "."@ + symbol
}

/// The topic for snapshots of an order.
pub open spec fn order_snapshots_topic_spec(client_order_id: Seq<char>) -> Seq<char> {
    "order.snapshots."@ + client_order_id
}

/// The topic for snapshots of a position.
pub open spec fn positions_snapshots_topic_spec(position_id: Seq<char>) -> Seq<char> {
    "positions.snapshots."@ + position_id
}

/// The topic for order events of a strategy.
pub open spec fn event_orders_topic_spec(strategy_id: Seq<char>) -> Seq<char> {
    "events.order."@ + strategy_id
}

/// The topic for position events of a strategy.
pub open spec fn event_positions_topic_spec(strategy_id: Seq<char>) -> Seq<char> {
    "events.position."@ + strategy_id
}

/// Whether a memo table holds an entry whose key has the given view.
pub open spec fn has_key<K: View, V>(table: Seq<(K, V)>, key: K::V) -> bool {
    exists|i: int| 0 <= i < table.len() && (#[trigger] table[i]).0@ == key
}

fn prefix_topic(prefix: &str, rest: &str) -> (r: Topic)
    ensures
        r@ == prefix@ + rest@,
{
    let mut s = String::from_str(prefix);
    s.append(rest);
    Topic::new(s)
}

fn venue_symbol_topic(prefix: &str, instrument_id: &InstrumentId) -> (r: Topic)
    ensures
        r@ == prefix@ + instrument_id.venue@ + "."@ + instrument_id.symbol@,
{
    let mut s = String::from_str(prefix);
    s.append(instrument_id.venue.as_str());
    s.append(".");
    s.append(instrument_id.symbol.as_str());
    Topic::new(s)
}

fn bars_topic(bar_type: &BarType) -> (r: Topic)
    ensures
        r@ == bars_topic_spec(
            bar_type.instrument_id.symbol@,
            bar_type.instrument_id.venue@,
            bar_type.spec@,
        ),
{
    let mut s = String::from_str("data.bars.");
    s.append(bar_type.instrument_id.symbol.as_str());
    s.append(".");
    s.append(bar_type.instrument_id.venue.as_str());
    s.append("-");
    s.append(bar_type.spec.as_str());
    Topic::new(s)
}

#[verifier::loop_isolation(false)]
fn find_topic_dt(table: &Vec<(DataType, Topic)>, key: &DataType) -> (r: Option<Topic>)
    ensures
        match r {
            Some(t) => exists|i: int|
                0 <= i < table@.len() && (#[trigger] table@[i]).0@ == key@ && table@[i].1@ == t@,
            None => forall|i: int| 0 <= i < table@.len() ==> (#[trigger] table@[i]).0@ != key@,
        },
{
    let mut k: usize = 0;
    while k < table.len()
        invariant
            k <= table@.len(),
            forall|j: int| 0 <= j < k ==> (#[trigger] table@[j]).0@ != key@,
        decreases table@.len() - k,
    {
        if table[k].0 == *key {
            return Some(table[k].1.clone());
        }
        k += 1;
    }
    None
}

#[verifier::loop_isolation(false)]
fn find_topic_venue(table: &Vec<(Venue, Topic)>, key: &Venue) -> (r: Option<Topic>)
    ensures
        match r {
            Some(t) => exists|i: int|
                0 <= i < table@.len() && (#[trigger] table@[i]).0@ == key@ && table@[i].1@ == t@,
            None => forall|i: int| 0 <= i < table@.len() ==> (#[trigger] table@[i]).0@ != key@,
        },
{
    let mut k: usize = 0;
    while k < table.len()
        invariant
            k <= table@.len(),
            forall|j: int| 0 <= j < k ==> (#[trigger] table@[j]).0@ != key@,
        decreases table@.len() - k,
    {
        if table[k].0 == *key {
            return Some(table[k].1.clone());
        }
        k += 1;
    }
    None
}

#[verifier::loop_isolation(false)]
fn find_topic_iid(table: &Vec<(InstrumentId, Topic)>, key: &InstrumentId) -> (r: Option<Topic>)
    ensures
        match r {
            Some(t) => exists|i: int|
                0 <= i < table@.len() && (#[trigger] table@[i]).0@ == key@ && table@[i].1@ == t@,
            None => forall|i: int| 0 <= i < table@.len() ==> (#[trigger] table@[i]).0@ != key@,
        },
{
    let mut k: usize = 0;
    while k < table.len()
        invariant
            k <= table@.len(),
            forall|j: int| 0 <= j < k ==> (#[trigger] table@[j]).0@ != key@,
        decreases table@.len() - k,
    {
        if table[k].0 == *key {
            return Some(table[k].1.clone());
        }
        k += 1;
    }
    None
}

#[verifier::loop_isolation(false)]
fn find_topic_bar(table: &Vec<(BarType, Topic)>, key: &BarType) -> (r: Option<Topic>)
    ensures
        match r {
            Some(t) => exists|i: int|
                0 <= i < table@.len() && (#[trigger] table@[i]).0@ == key@ && table@[i].1@ == t@,
            None => forall|i: int| 0 <= i < table@.len() ==> (#[trigger] table@[i]).0@ != key@,
        },
{
    let mut k: usize = 0;
    while k < table.len()
        invariant
            k <= table@.len(),
            forall|j: int| 0 <= j < k ==> (#[trigger] table@[j]).0@ != key@,
        decreases table@.len() - k,
    {
        if table[k].0 == *key {
            return Some(table[k].1.clone());
        }
        k += 1;
    }
    None
}

#[verifier::loop_isolation(false)]
fn find_topic_coid(table: &Vec<(ClientOrderId, Topic)>, key: &ClientOrderId) -> (r: Option<Topic>)
    ensures
        match r {
            Some(t) => exists|i: int|
                0 <= i < table@.len() && (#[trigger] table@[i]).0@ == key@ && table@[i].1@ == t@,
            None => forall|i: int| 0 <= i < table@.len() ==> (#[trigger] table@[i]).0@ != key@,
        },
{
    let mut k: usize = 0;
    while k < table.len()
        invariant
            k <= table@.len(),
            forall|j: int| 0 <= j < k ==> (#[trigger] table@[j]).0@ != key@,
        decreases table@.len() - k,
    {
        if table[k].0 == *key {
            return Some(table[k].1.clone());
        }
        k += 1;
    }
    None
}

#[verifier::loop_isolation(false)]
fn find_topic_pid(table: &Vec<(PositionId, Topic)>, key: &PositionId) -> (r: Option<Topic>)
    ensures
        match r {
            Some(t) => exists|i: int|
                0 <= i < table@.len() && (#[trigger] table@[i]).0@ == key@ && table@[i].1@ == t@,
            None => forall|i: int| 0 <= i < table@.len() ==> (#[trigger] table@[i]).0@ != key@,
        },
{
    let mut k: usize = 0;
    while k < table.len()
        invariant
            k <= table@.len(),
            forall|j: int| 0 <= j < k ==> (#[trigger] table@[j]).0@ != key@,
        decreases table@.len() - k,
    {
        if table[k].0 == *key {
            return Some(table[k].1.clone());
        }
        k += 1;
    }
    None
}

#[verifier::loop_isolation(false)]
fn find_topic_sid(table: &Vec<(StrategyId, Topic)>, key: &StrategyId) -> (r: Option<Topic>)
    ensures
        match r {
            Some(t) => exists|i: int|
                0 <= i < table@.len() && (#[trigger] table@[i]).0@ == key@ && table@[i].1@ == t@,
            None => forall|i: int| 0 <= i < table@.len() ==> (#[trigger] table@[i]).0@ != key@,
        },
{
    let mut k: usize = 0;
    while k < table.len()
        invariant
            k <= table@.len(),
            forall|j: int| 0 <= j < k ==> (#[trigger] table@[j]).0@ != key@,
        decreases table@.len() - k,
    {
        if table[k].0 == *key {
            return Some(table[k].1.clone());
        }
        k += 1;
    }
    None
}

/// The topic for new blocks of a chain. The chain-scoped extension topics
/// render the instrument as `{symbol}.{venue}`, its canonical display form.
pub open spec fn defi_blocks_topic_spec(chain_name: Seq<char>) -> Seq<char> {
    "defi.blocks."@ + chain_name
}

/// The topic for a pool's definition updates.
pub open spec fn defi_pool_topic_spec(symbol: Seq<char>, venue: Seq<char>) -> Seq<char> {
    "defi.pool."@ + symbol + "."@ + venue
}

/// The topic for swaps executed against a pool.
pub open spec fn defi_pool_swaps_topic_spec(symbol: Seq<char>, venue: Seq<char>) -> Seq<char> {
    "defi.pool_swaps."@ + symbol + "."@ + venue
}

/// The topic for liquidity updates of a pool.
pub open spec fn defi_liquidity_topic_spec(symbol: Seq<char>, venue: Seq<char>) -> Seq<char> {
    "defi.liquidity."@ + symbol + "."@ + venue
}

fn symbol_venue_topic(prefix: &str, instrument_id: &InstrumentId) -> (r: Topic)
    ensures
        r@ == prefix@ + instrument_id.symbol@ + "."@ + instrument_id.venue@,
{
    let mut s = String::from_str(prefix);
    s.append(instrument_id.symbol.as_str());
    s.append(".");
    s.append(instrument_id.venue.as_str());
    Topic::new(s)
}

fn chain_topic(prefix: &str, chain: Blockchain) -> (r: Topic)
    ensures
        r@ == prefix@ + blockchain_name_spec(chain),
{
    let mut s = String::from_str(prefix);
    s.append(chain.as_str());
    Topic::new(s)
}

#[verifier::loop_isolation(false)]
fn find_topic_chain(table: &Vec<(Blockchain, Topic)>, key: &Blockchain) -> (r: Option<Topic>)
    ensures
        match r {
            Some(t) => exists|i: int|
                0 <= i < table@.len() && (#[trigger] table@[i]).0@ == key@ && table@[i].1@ == t@,
            None => forall|i: int| 0 <= i < table@.len() ==> (#[trigger] table@[i]).0@ != key@,
        },
{
    let mut k: usize = 0;
    while k < table.len()
        invariant
            k <= table@.len(),
            forall|j: int| 0 <= j < k ==> (#[trigger] table@[j]).0@ != key@,
        decreases table@.len() - k,
    {
        if table[k].0 == *key {
            return Some(table[k].1.clone());
        }
        k += 1;
    }
    None
}

/// The switchboard of built-in topics and endpoint names, with one memo
/// table per topic family.
pub struct MessagingSwitchboard {
    pub custom_topics: Vec<(DataType, Topic)>,
    pub instruments_topics: Vec<(Venue, Topic)>,
    pub instrument_topics: Vec<(InstrumentId, Topic)>,
    pub book_deltas_topics: Vec<(InstrumentId, Topic)>,
    pub book_depth10_topics: Vec<(InstrumentId, Topic)>,
    pub book_snapshots_topics: Vec<(InstrumentId, Topic)>,
    pub quote_topics: Vec<(InstrumentId, Topic)>,
    pub trade_topics: Vec<(InstrumentId, Topic)>,
    pub bar_topics: Vec<(BarType, Topic)>,
    pub mark_price_topics: Vec<(InstrumentId, Topic)>,
    pub index_price_topics: Vec<(InstrumentId, Topic)>,
    pub instrument_status_topics: Vec<(InstrumentId, Topic)>,
    pub instrument_close_topics: Vec<(InstrumentId, Topic)>,
    pub order_snapshots_topics: Vec<(ClientOrderId, Topic)>,
    pub positions_snapshots_topics: Vec<(PositionId, Topic)>,
    pub event_orders_topics: Vec<(StrategyId, Topic)>,
    pub event_positions_topics: Vec<(StrategyId, Topic)>,
    pub defi_blocks_topics: Vec<(Blockchain, Topic)>,
    pub defi_pool_topics: Vec<(InstrumentId, Topic)>,
    pub defi_pool_swaps_topics: Vec<(InstrumentId, Topic)>,
    pub defi_liquidity_topics: Vec<(InstrumentId, Topic)>,
}

impl MessagingSwitchboard {
    /// Every memo table maps each key to exactly the topic the naming scheme
    /// gives it.
    pub open spec fn wf(self) -> bool {
        &&& (forall|i: int|
            0 <= i < self.custom_topics@.len() ==> (#[trigger] self.custom_topics@[i]).1@ == custom_topic_spec(self.custom_topics@[i].0@))
        &&& (forall|i: int|
            0 <= i < self.instruments_topics@.len() ==> (#[trigger] self.instruments_topics@[i]).1@ == instruments_topic_spec(self.instruments_topics@[i].0@))
        &&& (forall|i: int|
            0 <= i < self.instrument_topics@.len() ==> (#[trigger] self.instrument_topics@[i]).1@ == instrument_topic_spec(self.instrument_topics@[i].0.venue@, self.instrument_topics@[i].0.symbol@))
        &&& (forall|i: int|
            0 <= i < self.book_deltas_topics@.len() ==> (#[trigger] self.book_deltas_topics@[i]).1@ == book_deltas_topic_spec(self.book_deltas_topics@[i].0.venue@, self.book_deltas_topics@[i].0.symbol@))
        &&& (forall|i: int|
            0 <= i < self.book_depth10_topics@.len() ==> (#[trigger] self.book_depth10_topics@[i]).1@ == book_depth10_topic_spec(self.book_depth10_topics@[i].0.venue@, self.book_depth10_topics@[i].0.symbol@))
        &&& (forall|i: int|
            0 <= i < self.book_snapshots_topics@.len() ==> (#[trigger] self.book_snapshots_topics@[i]).1@ == book_snapshots_topic_spec(self.book_snapshots_topics@[i].0.venue@, self.book_snapshots_topics@[i].0.symbol@))
        &&& (forall|i: int|
            0 <= i < self.quote_topics@.len() ==> (#[trigger] self.quote_topics@[i]).1@ == quotes_topic_spec(self.quote_topics@[i].0.venue@, self.quote_topics@[i].0.symbol@))
        &&& (forall|i: int|
            0 <= i < self.trade_topics@.len() ==> (#[trigger] self.trade_topics@[i]).1@ == trades_topic_spec(self.trade_topics@[i].0.venue@, self.trade_topics@[i].0.symbol@))
        &&& (forall|i: int|
            0 <= i < self.bar_topics@.len() ==> (#[trigger] self.bar_topics@[i]).1@ == bars_topic_spec(self.bar_topics@[i].0.instrument_id.symbol@, self.bar_topics@[i].0.instrument_id.venue@, self.bar_topics@[i].0.spec@))
        &&& (forall|i: int|
            0 <= i < self.mark_price_topics@.len() ==> (#[trigger] self.mark_price_topics@[i]).1@ == mark_price_topic_spec(self.mark_price_topics@[i].0.venue@, self.mark_price_topics@[i].0.symbol@))
        &&& (forall|i: int|
            0 <= i < self.index_price_topics@.len() ==> (#[trigger] self.index_price_topics@[i]).1@ == index_price_topic_spec(self.index_price_topics@[i].0.venue@, self.index_price_topics@[i].0.symbol@))
        &&& (forall|i: int|
            0 <= i < self.instrument_status_topics@.len() ==> (#[trigger] self.instrument_status_topics@[i]).1@ == instrument_status_topic_spec(self.instrument_status_topics@[i].0.venue@, self.instrument_status_topics@[i].0.symbol@))
        &&& (forall|i: int|
            0 <= i < self.instrument_close_topics@.len() ==> (#[trigger] self.instrument_close_topics@[i]).1@ == instrument_close_topic_spec(self.instrument_close_topics@[i].0.venue@, self.instrument_close_topics@[i].0.symbol@))
        &&& (forall|i: int|
            0 <= i < self.order_snapshots_topics@.len() ==> (#[trigger] self.order_snapshots_topics@[i]).1@ == order_snapshots_topic_spec(self.order_snapshots_topics@[i].0@))
        &&& (forall|i: int|
            0 <= i < self.positions_snapshots_topics@.len() ==> (#[trigger] self.positions_snapshots_topics@[i]).1@ == positions_snapshots_topic_spec(self.positions_snapshots_topics@[i].0@))
        &&& (forall|i: int|
            0 <= i < self.event_orders_topics@.len() ==> (#[trigger] self.event_orders_topics@[i]).1@ == event_orders_topic_spec(self.event_orders_topics@[i].0@))
        &&& (forall|i: int|
            0 <= i < self.event_positions_topics@.len() ==> (#[trigger] self.event_positions_topics@[i]).1@ == event_positions_topic_spec(self.event_positions_topics@[i].0@))
        &&& (forall|i: int|
            0 <= i < self.defi_blocks_topics@.len() ==> (#[trigger] self.defi_blocks_topics@[i]).1@ == defi_blocks_topic_spec(blockchain_name_spec(self.defi_blocks_topics@[i].0)))
        &&& (forall|i: int|
            0 <= i < self.defi_pool_topics@.len() ==> (#[trigger] self.defi_pool_topics@[i]).1@ == defi_pool_topic_spec(self.defi_pool_topics@[i].0.symbol@, self.defi_pool_topics@[i].0.venue@))
        &&& (forall|i: int|
            0 <= i < self.defi_pool_swaps_topics@.len() ==> (#[trigger] self.defi_pool_swaps_topics@[i]).1@ == defi_pool_swaps_topic_spec(self.defi_pool_swaps_topics@[i].0.symbol@, self.defi_pool_swaps_topics@[i].0.venue@))
        &&& (forall|i: int|
            0 <= i < self.defi_liquidity_topics@.len() ==> (#[trigger] self.defi_liquidity_topics@[i]).1@ == defi_liquidity_topic_spec(self.defi_liquidity_topics@[i].0.symbol@, self.defi_liquidity_topics@[i].0.venue@))
    }

    /// The endpoint commands to the data engine's queue are sent to.
    pub fn data_engine_queue_execute() -> (r: Endpoint)
        ensures
            r@ == "DataEngine.queue_execute"@,
    {
        Endpoint::new(String::from_str("DataEngine.queue_execute"))
    }

    /// The data engine's synchronous command endpoint.
    pub fn data_engine_execute() -> (r: Endpoint)
        ensures
            r@ == "DataEngine.execute"@,
    {
        Endpoint::new(String::from_str("DataEngine.execute"))
    }

    /// The data engine's inbound data endpoint.
    pub fn data_engine_process() -> (r: Endpoint)
        ensures
            r@ == "DataEngine.process"@,
    {
        Endpoint::new(String::from_str("DataEngine.process"))
    }

    /// The data engine's response endpoint.
    pub fn data_engine_response() -> (r: Endpoint)
        ensures
            r@ == "DataEngine.response"@,
    {
        Endpoint::new(String::from_str("DataEngine.response"))
    }

    /// The execution engine's command endpoint.
    pub fn exec_engine_execute() -> (r: Endpoint)
        ensures
            r@ == "ExecEngine.execute"@,
    {
        Endpoint::new(String::from_str("ExecEngine.execute"))
    }

    /// The execution engine's inbound event endpoint.
    pub fn exec_engine_process() -> (r: Endpoint)
        ensures
            r@ == "ExecEngine.process"@,
    {
        Endpoint::new(String::from_str("ExecEngine.process"))
    }

    /// The memoized topic for custom data of a type: a repeated call for an equal key
    /// returns an equal topic and leaves the switchboard unchanged.
    pub fn get_custom_topic(&mut self, data_type: DataType) -> (r: Topic)
        requires
            old(self).wf(),
        ensures
            final(self).wf(),
            r@ == custom_topic_spec(data_type@),
            has_key(old(self).custom_topics@, data_type@) ==> *final(self) == *old(self),
            !has_key(old(self).custom_topics@, data_type@) ==> final(self).custom_topics@ == old(
                self,
            ).custom_topics@.push((data_type, r)) && *final(self) == (MessagingSwitchboard {
                custom_topics: final(self).custom_topics,
                ..*old(self)
            }),
    {
        match find_topic_dt(&self.custom_topics, &data_type) {
            Some(t) => t,
            None => {
                let t = prefix_topic("data.", data_type.as_str());
                self.custom_topics.push((data_type, t.clone()));
                t
            },
        }
    }

    /// The memoized topic for all instrument definitions of a venue: a repeated call for an equal key
    /// returns an equal topic and leaves the switchboard unchanged.
    pub fn get_instruments_topic(&mut self, venue: Venue) -> (r: Topic)
        requires
            old(self).wf(),
        ensures
            final(self).wf(),
            r@ == instruments_topic_spec(venue@),
            has_key(old(self).instruments_topics@, venue@) ==> *final(self) == *old(self),
            !has_key(old(self).instruments_topics@, venue@) ==> final(self).instruments_topics@ == old(
                self,
            ).instruments_topics@.push((venue, r)) && *final(self) == (MessagingSwitchboard {
                instruments_topics: final(self).instruments_topics,
                ..*old(self)
            }),
    {
        match find_topic_venue(&self.instruments_topics, &venue) {
            Some(t) => t,
            None => {
                let t = prefix_topic("data.instrument.", venue.as_str());
                self.instruments_topics.push((venue, t.clone()));
                t
            },
        }
    }

    /// The memoized topic for one instrument's definition updates: a repeated call for an equal key
    /// returns an equal topic and leaves the switchboard unchanged.
    pub fn get_instrument_topic(&mut self, instrument_id: InstrumentId) -> (r: Topic)
        requires
            old(self).wf(),
        ensures
            final(self).wf(),
            r@ == instrument_topic_spec(instrument_id.venue@, instrument_id.symbol@),
            has_key(old(self).instrument_topics@, instrument_id@) ==> *final(self) == *old(self),
            !has_key(old(self).instrument_topics@, instrument_id@) ==> final(self).instrument_topics@ == old(
                self,
            ).instrument_topics@.push((instrument_id, r)) && *final(self) == (MessagingSwitchboard {
                instrument_topics: final(self).instrument_topics,
                ..*old(self)
            }),
    {
        match find_topic_iid(&self.instrument_topics, &instrument_id) {
            Some(t) => t,
            None => {
                let t = venue_symbol_topic("data.instrument.", &instrument_id);
                self.instrument_topics.push((instrument_id, t.clone()));
                t
            },
        }
    }

    /// The memoized topic for order book deltas of an instrument: a repeated call for an equal key
    /// returns an equal topic and leaves the switchboard unchanged.
    pub fn get_book_deltas_topic(&mut self, instrument_id: InstrumentId) -> (r: Topic)
        requires
            old(self).wf(),
        ensures
            final(self).wf(),
            r@ == book_deltas_topic_spec(instrument_id.venue@, instrument_id.symbol@),
            has_key(old(self).book_deltas_topics@, instrument_id@) ==> *final(self) == *old(self),
            !has_key(old(self).book_deltas_topics@, instrument_id@) ==> final(self).book_deltas_topics@ == old(
                self,
            ).book_deltas_topics@.push((instrument_id, r)) && *final(self) == (MessagingSwitchboard {
                book_deltas_topics: final(self).book_deltas_topics,
                ..*old(self)
            }),
    {
        match find_topic_iid(&self.book_deltas_topics, &instrument_id) {
            Some(t) => t,
            None => {
                let t = venue_symbol_topic("data.book.deltas.", &instrument_id);
                self.book_deltas_topics.push((instrument_id, t.clone()));
                t
            },
        }
    }

    /// The memoized topic for ten-level book depth of an instrument: a repeated call for an equal key
    /// returns an equal topic and leaves the switchboard unchanged.
    pub fn get_book_depth10_topic(&mut self, instrument_id: InstrumentId) -> (r: Topic)
        requires
            old(self).wf(),
        ensures
            final(self).wf(),
            r@ == book_depth10_topic_spec(instrument_id.venue@, instrument_id.symbol@),
            has_key(old(self).book_depth10_topics@, instrument_id@) ==> *final(self) == *old(self),
            !has_key(old(self).book_depth10_topics@, instrument_id@) ==> final(self).book_depth10_topics@ == old(
                self,
            ).book_depth10_topics@.push((instrument_id, r)) && *final(self) == (MessagingSwitchboard {
                book_depth10_topics: final(self).book_depth10_topics,
                ..*old(self)
            }),
    {
        match find_topic_iid(&self.book_depth10_topics, &instrument_id) {
            Some(t) => t,
            None => {
                let t = venue_symbol_topic("data.book.depth10.", &instrument_id);
                self.book_depth10_topics.push((instrument_id, t.clone()));
                t
            },
        }
    }

    /// The memoized topic for book snapshots of an instrument: a repeated call for an equal key
    /// returns an equal topic and leaves the switchboard unchanged.
    pub fn get_book_snapshots_topic(&mut self, instrument_id: InstrumentId) -> (r: Topic)
        requires
            old(self).wf(),
        ensures
            final(self).wf(),
            r@ == book_snapshots_topic_spec(instrument_id.venue@, instrument_id.symbol@),
            has_key(old(self).book_snapshots_topics@, instrument_id@) ==> *final(self) == *old(self),
            !has_key(old(self).book_snapshots_topics@, instrument_id@) ==> final(self).book_snapshots_topics@ == old(
                self,
            ).book_snapshots_topics@.push((instrument_id, r)) && *final(self) == (MessagingSwitchboard {
                book_snapshots_topics: final(self).book_snapshots_topics,
                ..*old(self)
            }),
    {
        match find_topic_iid(&self.book_snapshots_topics, &instrument_id) {
            Some(t) => t,
            None => {
                let t = venue_symbol_topic("data.book.snapshots.", &instrument_id);
                self.book_snapshots_topics.push((instrument_id, t.clone()));
                t
            },
        }
    }

    /// The memoized topic for quotes of an instrument: a repeated call for an equal key
    /// returns an equal topic and leaves the switchboard unchanged.
    pub fn get_quotes_topic(&mut self, instrument_id: InstrumentId) -> (r: Topic)
        requires
            old(self).wf(),
        ensures
            final(self).wf(),
            r@ == quotes_topic_spec(instrument_id.venue@, instrument_id.symbol@),
            has_key(old(self).quote_topics@, instrument_id@) ==> *final(self) == *old(self),
            !has_key(old(self).quote_topics@, instrument_id@) ==> final(self).quote_topics@ == old(
                self,
            ).quote_topics@.push((instrument_id, r)) && *final(self) == (MessagingSwitchboard {
                quote_topics: final(self).quote_topics,
                ..*old(self)
            }),
    {
        match find_topic_iid(&self.quote_topics, &instrument_id) {
            Some(t) => t,
            None => {
                let t = venue_symbol_topic("data.quotes.", &instrument_id);
                self.quote_topics.push((instrument_id, t.clone()));
                t
            },
        }
    }

    /// The memoized topic for trades of an instrument: a repeated call for an equal key
    /// returns an equal topic and leaves the switchboard unchanged.
    pub fn get_trades_topic(&mut self, instrument_id: InstrumentId) -> (r: Topic)
        requires
            old(self).wf(),
        ensures
            final(self).wf(),
            r@ == trades_topic_spec(instrument_id.venue@, instrument_id.symbol@),
            has_key(old(self).trade_topics@, instrument_id@) ==> *final(self) == *old(self),
            !has_key(old(self).trade_topics@, instrument_id@) ==> final(self).trade_topics@ == old(
                self,
            ).trade_topics@.push((instrument_id, r)) && *final(self) == (MessagingSwitchboard {
                trade_topics: final(self).trade_topics,
                ..*old(self)
            }),
    {
        match find_topic_iid(&self.trade_topics, &instrument_id) {
            Some(t) => t,
            None => {
                let t = venue_symbol_topic("data.trades.", &instrument_id);
                self.trade_topics.push((instrument_id, t.clone()));
                t
            },
        }
    }

    /// The memoized topic for bars of a bar type: a repeated call for an equal key
    /// returns an equal topic and leaves the switchboard unchanged.
    pub fn get_bars_topic(&mut self, bar_type: BarType) -> (r: Topic)
        requires
            old(self).wf(),
        ensures
            final(self).wf(),
            r@ == bars_topic_spec(bar_type.instrument_id.symbol@, bar_type.instrument_id.venue@, bar_type.spec@),
            has_key(old(self).bar_topics@, bar_type@) ==> *final(self) == *old(self),
            !has_key(old(self).bar_topics@, bar_type@) ==> final(self).bar_topics@ == old(
                self,
            ).bar_topics@.push((bar_type, r)) && *final(self) == (MessagingSwitchboard {
                bar_topics: final(self).bar_topics,
                ..*old(self)
            }),
    {
        match find_topic_bar(&self.bar_topics, &bar_type) {
            Some(t) => t,
            None => {
                let t = bars_topic(&bar_type);
                self.bar_topics.push((bar_type, t.clone()));
                t
            },
        }
    }

    /// The memoized topic for mark price updates of an instrument: a repeated call for an equal key
    /// returns an equal topic and leaves the switchboard unchanged.
    pub fn get_mark_price_topic(&mut self, instrument_id: InstrumentId) -> (r: Topic)
        requires
            old(self).wf(),
        ensures
            final(self).wf(),
            r@ == mark_price_topic_spec(instrument_id.venue@, instrument_id.symbol@),
            has_key(old(self).mark_price_topics@, instrument_id@) ==> *final(self) == *old(self),
            !has_key(old(self).mark_price_topics@, instrument_id@) ==> final(self).mark_price_topics@ == old(
                self,
            ).mark_price_topics@.push((instrument_id, r)) && *final(self) == (MessagingSwitchboard {
                mark_price_topics: final(self).mark_price_topics,
                ..*old(self)
            }),
    {
        match find_topic_iid(&self.mark_price_topics, &instrument_id) {
            Some(t) => t,
            None => {
                let t = venue_symbol_topic("data.mark_prices.", &instrument_id);
                self.mark_price_topics.push((instrument_id, t.clone()));
                t
            },
        }
    }

    /// The memoized topic for index price updates of an instrument: a repeated call for an equal key
    /// returns an equal topic and leaves the switchboard unchanged.
    pub fn get_index_price_topic(&mut self, instrument_id: InstrumentId) -> (r: Topic)
        requires
            old(self).wf(),
        ensures
            final(self).wf(),
            r@ == index_price_topic_spec(instrument_id.venue@, instrument_id.symbol@),
            has_key(old(self).index_price_topics@, instrument_id@) ==> *final(self) == *old(self),
            !has_key(old(self).index_price_topics@, instrument_id@) ==> final(self).index_price_topics@ == old(
                self,
            ).index_price_topics@.push((instrument_id, r)) && *final(self) == (MessagingSwitchboard {
                index_price_topics: final(self).index_price_topics,
                ..*old(self)
            }),
    {
        match find_topic_iid(&self.index_price_topics, &instrument_id) {
            Some(t) => t,
            None => {
                let t = venue_symbol_topic("data.index_prices.", &instrument_id);
                self.index_price_topics.push((instrument_id, t.clone()));
                t
            },
        }
    }

    /// The memoized topic for status updates of an instrument: a repeated call for an equal key
    /// returns an equal topic and leaves the switchboard unchanged.
    pub fn get_instrument_status_topic(&mut self, instrument_id: InstrumentId) -> (r: Topic)
        requires
            old(self).wf(),
        ensures
            final(self).wf(),
            r@ == instrument_status_topic_spec(instrument_id.venue@, instrument_id.symbol@),
            has_key(old(self).instrument_status_topics@, instrument_id@) ==> *final(self) == *old(self),
            !has_key(old(self).instrument_status_topics@, instrument_id@) ==> final(self).instrument_status_topics@ == old(
                self,
            ).instrument_status_topics@.push((instrument_id, r)) && *final(self) == (MessagingSwitchboard {
                instrument_status_topics: final(self).instrument_status_topics,
                ..*old(self)
            }),
    {
        match find_topic_iid(&self.instrument_status_topics, &instrument_id) {
            Some(t) => t,
            None => {
                let t = venue_symbol_topic("data.status.", &instrument_id);
                self.instrument_status_topics.push((instrument_id, t.clone()));
                t
            },
        }
    }

    /// The memoized topic for close updates of an instrument: a repeated call for an equal key
    /// returns an equal topic and leaves the switchboard unchanged.
    pub fn get_instrument_close_topic(&mut self, instrument_id: InstrumentId) -> (r: Topic)
        requires
            old(self).wf(),
        ensures
            final(self).wf(),
            r@ == instrument_close_topic_spec(instrument_id.venue@, instrument_id.symbol@),
            has_key(old(self).instrument_close_topics@, instrument_id@) ==> *final(self) == *old(self),
            !has_key(old(self).instrument_close_topics@, instrument_id@) ==> final(self).instrument_close_topics@ == old(
                self,
            ).instrument_close_topics@.push((instrument_id, r)) && *final(self) == (MessagingSwitchboard {
                instrument_close_topics: final(self).instrument_close_topics,
                ..*old(self)
            }),
    {
        match find_topic_iid(&self.instrument_close_topics, &instrument_id) {
            Some(t) => t,
            None => {
                let t = venue_symbol_topic("data.close.", &instrument_id);
                self.instrument_close_topics.push((instrument_id, t.clone()));
                t
            },
        }
    }

    /// The memoized topic for snapshots of an order: a repeated call for an equal key
    /// returns an equal topic and leaves the switchboard unchanged.
    pub fn get_order_snapshots_topic(&mut self, client_order_id: ClientOrderId) -> (r: Topic)
        requires
            old(self).wf(),
        ensures
            final(self).wf(),
            r@ == order_snapshots_topic_spec(client_order_id@),
            has_key(old(self).order_snapshots_topics@, client_order_id@) ==> *final(self) == *old(self),
            !has_key(old(self).order_snapshots_topics@, client_order_id@) ==> final(self).order_snapshots_topics@ == old(
                self,
            ).order_snapshots_topics@.push((client_order_id, r)) && *final(self) == (MessagingSwitchboard {
                order_snapshots_topics: final(self).order_snapshots_topics,
                ..*old(self)
            }),
    {
        match find_topic_coid(&self.order_snapshots_topics, &client_order_id) {
            Some(t) => t,
            None => {
                let t = prefix_topic("order.snapshots.", client_order_id.as_str());
                self.order_snapshots_topics.push((client_order_id, t.clone()));
                t
            },
        }
    }

    /// The memoized topic for snapshots of a position: a repeated call for an equal key
    /// returns an equal topic and leaves the switchboard unchanged.
    pub fn get_positions_snapshots_topic(&mut self, position_id: PositionId) -> (r: Topic)
        requires
            old(self).wf(),
        ensures
            final(self).wf(),
            r@ == positions_snapshots_topic_spec(position_id@),
            has_key(old(self).positions_snapshots_topics@, position_id@) ==> *final(self) == *old(self),
            !has_key(old(self).positions_snapshots_topics@, position_id@) ==> final(self).positions_snapshots_topics@ == old(
                self,
            ).positions_snapshots_topics@.push((position_id, r)) && *final(self) == (MessagingSwitchboard {
                positions_snapshots_topics: final(self).positions_snapshots_topics,
                ..*old(self)
            }),
    {
        match find_topic_pid(&self.positions_snapshots_topics, &position_id) {
            Some(t) => t,
            None => {
                let t = prefix_topic("positions.snapshots.", position_id.as_str());
                self.positions_snapshots_topics.push((position_id, t.clone()));
                t
            },
        }
    }

    /// The memoized topic for order events of a strategy: a repeated call for an equal key
    /// returns an equal topic and leaves the switchboard unchanged.
    pub fn get_event_orders_topic(&mut self, strategy_id: StrategyId) -> (r: Topic)
        requires
            old(self).wf(),
        ensures
            final(self).wf(),
            r@ == event_orders_topic_spec(strategy_id@),
            has_key(old(self).event_orders_topics@, strategy_id@) ==> *final(self) == *old(self),
            !has_key(old(self).event_orders_topics@, strategy_id@) ==> final(self).event_orders_topics@ == old(
                self,
            ).event_orders_topics@.push((strategy_id, r)) && *final(self) == (MessagingSwitchboard {
                event_orders_topics: final(self).event_orders_topics,
                ..*old(self)
            }),
    {
        match find_topic_sid(&self.event_orders_topics, &strategy_id) {
            Some(t) => t,
            None => {
                let t = prefix_topic("events.order.", strategy_id.as_str());
                self.event_orders_topics.push((strategy_id, t.clone()));
                t
            },
        }
    }

    /// The memoized topic for position events of a strategy: a repeated call for an equal key
    /// returns an equal topic and leaves the switchboard unchanged.
    pub fn get_event_positions_topic(&mut self, strategy_id: StrategyId) -> (r: Topic)
        requires
            old(self).wf(),
        ensures
            final(self).wf(),
            r@ == event_positions_topic_spec(strategy_id@),
            has_key(old(self).event_positions_topics@, strategy_id@) ==> *final(self) == *old(self),
            !has_key(old(self).event_positions_topics@, strategy_id@) ==> final(self).event_positions_topics@ == old(
                self,
            ).event_positions_topics@.push((strategy_id, r)) && *final(self) == (MessagingSwitchboard {
                event_positions_topics: final(self).event_positions_topics,
                ..*old(self)
            }),
    {
        match find_topic_sid(&self.event_positions_topics, &strategy_id) {
            Some(t) => t,
            None => {
                let t = prefix_topic("events.position.", strategy_id.as_str());
                self.event_positions_topics.push((strategy_id, t.clone()));
                t
            },
        }
    }

    /// The memoized topic for new blocks of a chain: a repeated call for an
    /// equal key returns an equal topic and leaves the switchboard unchanged.
    pub fn get_defi_blocks_topic(&mut self, chain: Blockchain) -> (r: Topic)
        requires
            old(self).wf(),
        ensures
            final(self).wf(),
            r@ == defi_blocks_topic_spec(blockchain_name_spec(chain)),
            has_key(old(self).defi_blocks_topics@, chain@) ==> *final(self) == *old(self),
            !has_key(old(self).defi_blocks_topics@, chain@) ==> final(self).defi_blocks_topics@
                == old(self).defi_blocks_topics@.push((chain, r)) && *final(self)
                == (MessagingSwitchboard {
                defi_blocks_topics: final(self).defi_blocks_topics,
                ..*old(self)
            }),
    {
        match find_topic_chain(&self.defi_blocks_topics, &chain) {
            Some(t) => t,
            None => {
                let t = chain_topic("defi.blocks.", chain);
                self.defi_blocks_topics.push((chain, t.clone()));
                t
            },
        }
    }

    /// The memoized topic for a pool's definition updates: a repeated call
    /// for an equal key returns an equal topic and leaves the switchboard
    /// unchanged.
    pub fn get_defi_pool_topic(&mut self, instrument_id: InstrumentId) -> (r: Topic)
        requires
            old(self).wf(),
        ensures
            final(self).wf(),
            r@ == defi_pool_topic_spec(instrument_id.symbol@, instrument_id.venue@),
            has_key(old(self).defi_pool_topics@, instrument_id@) ==> *final(self) == *old(self),
            !has_key(old(self).defi_pool_topics@, instrument_id@) ==> final(self).defi_pool_topics@ == old(self).defi_pool_topics@.push((instrument_id, r)) && *final(self) == (MessagingSwitchboard {
                defi_pool_topics: final(self).defi_pool_topics,
                ..*old(self)
            }),
    {
        match find_topic_iid(&self.defi_pool_topics, &instrument_id) {
            Some(t) => t,
            None => {
                let t = symbol_venue_topic("defi.pool.", &instrument_id);
                self.defi_pool_topics.push((instrument_id, t.clone()));
                t
            },
        }
    }

    /// The memoized topic for swaps against a pool: a repeated call for an
    /// equal key returns an equal topic and leaves the switchboard
    /// unchanged.
    pub fn get_defi_pool_swaps_topic(&mut self, instrument_id: InstrumentId) -> (r: Topic)
        requires
            old(self).wf(),
        ensures
            final(self).wf(),
            r@ == defi_pool_swaps_topic_spec(instrument_id.symbol@, instrument_id.venue@),
            has_key(old(self).defi_pool_swaps_topics@, instrument_id@) ==> *final(self) == *old(
                self,
            ),
            !has_key(old(self).defi_pool_swaps_topics@, instrument_id@) ==> final(self).defi_pool_swaps_topics@ == old(self).defi_pool_swaps_topics@.push(
                (instrument_id, r),
            ) && *final(self) == (MessagingSwitchboard {
                defi_pool_swaps_topics: final(self).defi_pool_swaps_topics,
                ..*old(self)
            }),
    {
        match find_topic_iid(&self.defi_pool_swaps_topics, &instrument_id) {
            Some(t) => t,
            None => {
                let t = symbol_venue_topic("defi.pool_swaps.", &instrument_id);
                self.defi_pool_swaps_topics.push((instrument_id, t.clone()));
                t
            },
        }
    }

    /// The memoized topic for liquidity updates of a pool: a repeated call
    /// for an equal key returns an equal topic and leaves the switchboard
    /// unchanged.
    pub fn get_defi_liquidity_topic(&mut self, instrument_id: InstrumentId) -> (r: Topic)
        requires
            old(self).wf(),
        ensures
            final(self).wf(),
            r@ == defi_liquidity_topic_spec(instrument_id.symbol@, instrument_id.venue@),
            has_key(old(self).defi_liquidity_topics@, instrument_id@) ==> *final(self) == *old(
                self,
            ),
            !has_key(old(self).defi_liquidity_topics@, instrument_id@) ==> final(self).defi_liquidity_topics@ == old(self).defi_liquidity_topics@.push(
                (instrument_id, r),
            ) && *final(self) == (MessagingSwitchboard {
                defi_liquidity_topics: final(self).defi_liquidity_topics,
                ..*old(self)
            }),
    {
        match find_topic_iid(&self.defi_liquidity_topics, &instrument_id) {
            Some(t) => t,
            None => {
                let t = symbol_venue_topic("defi.liquidity.", &instrument_id);
                self.defi_liquidity_topics.push((instrument_id, t.clone()));
                t
            },
        }
    }
}

impl Default for MessagingSwitchboard {
    /// An empty switchboard: every memo table starts empty.
    fn default() -> (r: Self)
        ensures
            r.wf(),
            r.custom_topics@.len() == 0,
            r.instruments_topics@.len() == 0,
            r.instrument_topics@.len() == 0,
            r.book_deltas_topics@.len() == 0,
            r.book_depth10_topics@.len() == 0,
            r.book_snapshots_topics@.len() == 0,
            r.quote_topics@.len() == 0,
            r.trade_topics@.len() == 0,
            r.bar_topics@.len() == 0,
            r.mark_price_topics@.len() == 0,
            r.index_price_topics@.len() == 0,
            r.instrument_status_topics@.len() == 0,
            r.instrument_close_topics@.len() == 0,
            r.order_snapshots_topics@.len() == 0,
            r.positions_snapshots_topics@.len() == 0,
            r.event_orders_topics@.len() == 0,
            r.event_positions_topics@.len() == 0,
            r.defi_blocks_topics@.len() == 0,
            r.defi_pool_topics@.len() == 0,
            r.defi_pool_swaps_topics@.len() == 0,
            r.defi_liquidity_topics@.len() == 0,
    {
        MessagingSwitchboard {
            custom_topics: Vec::new(),
            instruments_topics: Vec::new(),
            instrument_topics: Vec::new(),
            book_deltas_topics: Vec::new(),
            book_depth10_topics: Vec::new(),
            book_snapshots_topics: Vec::new(),
            quote_topics: Vec::new(),
            trade_topics: Vec::new(),
            bar_topics: Vec::new(),
            mark_price_topics: Vec::new(),
            index_price_topics: Vec::new(),
            instrument_status_topics: Vec::new(),
            instrument_close_topics: Vec::new(),
            order_snapshots_topics: Vec::new(),
            positions_snapshots_topics: Vec::new(),
            event_orders_topics: Vec::new(),
            event_positions_topics: Vec::new(),
            defi_blocks_topics: Vec::new(),
            defi_pool_topics: Vec::new(),
            defi_pool_swaps_topics: Vec::new(),
            defi_liquidity_topics: Vec::new(),
        }
    }
}

} // verus!
