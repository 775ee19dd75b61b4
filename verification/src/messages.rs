//! The subscribe, unsubscribe and request commands of the data subsystem.
//! Each is a value object carrying a fresh command or request identifier,
//! the initialization timestamp, and free-form string parameters. A command
//! that names neither a client nor a venue cannot be routed; the checked
//! constructors refuse it.

use vstd::prelude::*;
use crate::enums::BookType;
use crate::chain::Blockchain;
use crate::ids::{BarType, ClientId, DataType, InstrumentId, TraderId, Venue};
use crate::uuid4::Uuid4;

verus! {

/// Why a command could not be built.
#[derive(Clone, Copy, Debug, PartialEq, Eq, Structural)]
pub enum CommandError {
    /// Neither a client id nor a venue was given.
    MissingClientIdAndVenue,
}

/// A command to subscribe to a custom data stream.
pub struct SubscribeData {
    pub client_id: Option<ClientId>,
    pub venue: Option<Venue>,
    pub data_type: DataType,
    pub command_id: Uuid4,
    pub ts_init: u64,
    pub params: Option<Vec<(String, String)>>,
}

impl SubscribeData {
    /// Builds the command; `Ok` exactly when a client id or a venue is
    /// given, so the command can be routed.
    pub fn new_checked(client_id: Option<ClientId>, venue: Option<Venue>, data_type: DataType, command_id: Uuid4, ts_init: u64, params: Option<Vec<(String, String)>>) -> (r: Result<Self, CommandError>)
        ensures
            match r {
                Ok(c) => {
                    &&& (client_id is Some || venue is Some)
                    &&& c.client_id == client_id
                    &&& c.venue == venue
                    &&& c.data_type == data_type
                    &&& c.command_id == command_id
                    &&& c.ts_init == ts_init
                    &&& c.params == params
                },
                Err(e) => {
                    &&& e == CommandError::MissingClientIdAndVenue
                    &&& (client_id is None)
                    &&& (venue is None)
                },
            },
    {
        if client_id.is_none() && venue.is_none() {
            return Err(CommandError::MissingClientIdAndVenue);
        }
        Ok(SubscribeData { client_id, venue, data_type, command_id, ts_init, params })
    }

    /// Builds the command; a client id or a venue must be given.
    pub fn new(client_id: Option<ClientId>, venue: Option<Venue>, data_type: DataType, command_id: Uuid4, ts_init: u64, params: Option<Vec<(String, String)>>) -> (r: Self)
        requires
            client_id is Some || venue is Some,
        ensures
            r.client_id == client_id,
            r.venue == venue,
            r.data_type == data_type,
            r.command_id == command_id,
            r.ts_init == ts_init,
            r.params == params,
    {
        SubscribeData { client_id, venue, data_type, command_id, ts_init, params }
    }
}

/// A command to subscribe to all instrument definitions of a venue.
pub struct SubscribeInstruments {
    pub client_id: Option<ClientId>,
    pub venue: Venue,
    pub command_id: Uuid4,
    pub ts_init: u64,
    pub params: Option<Vec<(String, String)>>,
}

impl SubscribeInstruments {
    /// Builds the command.
    pub fn new(client_id: Option<ClientId>, venue: Venue, command_id: Uuid4, ts_init: u64, params: Option<Vec<(String, String)>>) -> (r: Self)
        ensures
            r.client_id == client_id,
            r.venue == venue,
            r.command_id == command_id,
            r.ts_init == ts_init,
            r.params == params,
    {
        SubscribeInstruments { client_id, venue, command_id, ts_init, params }
    }
}

/// A command to subscribe to one instrument's definition updates.
pub struct SubscribeInstrument {
    pub instrument_id: InstrumentId,
    pub client_id: Option<ClientId>,
    pub venue: Option<Venue>,
    pub command_id: Uuid4,
    pub ts_init: u64,
    pub params: Option<Vec<(String, String)>>,
}

impl SubscribeInstrument {
    /// Builds the command; `Ok` exactly when a client id or a venue is
    /// given, so the command can be routed.
    pub fn new_checked(instrument_id: InstrumentId, client_id: Option<ClientId>, venue: Option<Venue>, command_id: Uuid4, ts_init: u64, params: Option<Vec<(String, String)>>) -> (r: Result<Self, CommandError>)
        ensures
            match r {
                Ok(c) => {
                    &&& (client_id is Some || venue is Some)
                    &&& c.instrument_id == instrument_id
                    &&& c.client_id == client_id
                    &&& c.venue == venue
                    &&& c.command_id == command_id
                    &&& c.ts_init == ts_init
                    &&& c.params == params
                },
                Err(e) => {
                    &&& e == CommandError::MissingClientIdAndVenue
                    &&& (client_id is None)
                    &&& (venue is None)
                },
            },
    {
        if client_id.is_none() && venue.is_none() {
            return Err(CommandError::MissingClientIdAndVenue);
        }
        Ok(SubscribeInstrument { instrument_id, client_id, venue, command_id, ts_init, params })
    }

    /// Builds the command; a client id or a venue must be given.
    pub fn new(instrument_id: InstrumentId, client_id: Option<ClientId>, venue: Option<Venue>, command_id: Uuid4, ts_init: u64, params: Option<Vec<(String, String)>>) -> (r: Self)
        requires
            client_id is Some || venue is Some,
        ensures
            r.instrument_id == instrument_id,
            r.client_id == client_id,
            r.venue == venue,
            r.command_id == command_id,
            r.ts_init == ts_init,
            r.params == params,
    {
        SubscribeInstrument { instrument_id, client_id, venue, command_id, ts_init, params }
    }
}

/// A command to subscribe to order book deltas.
pub struct SubscribeBookDeltas {
    pub instrument_id: InstrumentId,
    pub book_type: BookType,
    pub client_id: Option<ClientId>,
    pub venue: Option<Venue>,
    pub depth: Option<usize>,
    pub managed: bool,
    pub command_id: Uuid4,
    pub ts_init: u64,
    pub params: Option<Vec<(String, String)>>,
}

impl SubscribeBookDeltas {
    /// Builds the command; `Ok` exactly when a client id or a venue is
    /// given, so the command can be routed.
    pub fn new_checked(instrument_id: InstrumentId, book_type: BookType, client_id: Option<ClientId>, venue: Option<Venue>, depth: Option<usize>, managed: bool, command_id: Uuid4, ts_init: u64, params: Option<Vec<(String, String)>>) -> (r: Result<Self, CommandError>)
        requires
            depth matches Some(d) ==> d > 0,
        ensures
            match r {
                Ok(c) => {
                    &&& (client_id is Some || venue is Some)
                    &&& c.instrument_id == instrument_id
                    &&& c.book_type == book_type
                    &&& c.client_id == client_id
                    &&& c.venue == venue
                    &&& c.depth == depth
                    &&& c.managed == managed
                    &&& c.command_id == command_id
                    &&& c.ts_init == ts_init
                    &&& c.params == params
                },
                Err(e) => {
                    &&& e == CommandError::MissingClientIdAndVenue
                    &&& (client_id is None)
                    &&& (venue is None)
                },
            },
    {
        if client_id.is_none() && venue.is_none() {
            return Err(CommandError::MissingClientIdAndVenue);
        }
        Ok(SubscribeBookDeltas { instrument_id, book_type, client_id, venue, depth, managed, command_id, ts_init, params })
    }

    /// Builds the command; a client id or a venue must be given.
    pub fn new(instrument_id: InstrumentId, book_type: BookType, client_id: Option<ClientId>, venue: Option<Venue>, depth: Option<usize>, managed: bool, command_id: Uuid4, ts_init: u64, params: Option<Vec<(String, String)>>) -> (r: Self)
        requires
            depth matches Some(d) ==> d > 0,
            client_id is Some || venue is Some,
        ensures
            r.instrument_id == instrument_id,
            r.book_type == book_type,
            r.client_id == client_id,
            r.venue == venue,
            r.depth == depth,
            r.managed == managed,
            r.command_id == command_id,
            r.ts_init == ts_init,
            r.params == params,
    {
        SubscribeBookDeltas { instrument_id, book_type, client_id, venue, depth, managed, command_id, ts_init, params }
    }
}

/// A command to subscribe to ten-level book depth.
pub struct SubscribeBookDepth10 {
    pub instrument_id: InstrumentId,
    pub book_type: BookType,
    pub client_id: Option<ClientId>,
    pub venue: Option<Venue>,
    pub depth: Option<usize>,
    pub managed: bool,
    pub command_id: Uuid4,
    pub ts_init: u64,
    pub params: Option<Vec<(String, String)>>,
}

impl SubscribeBookDepth10 {
    /// Builds the command; `Ok` exactly when a client id or a venue is
    /// given, so the command can be routed.
    pub fn new_checked(instrument_id: InstrumentId, book_type: BookType, client_id: Option<ClientId>, venue: Option<Venue>, depth: Option<usize>, managed: bool, command_id: Uuid4, ts_init: u64, params: Option<Vec<(String, String)>>) -> (r: Result<Self, CommandError>)
        requires
            depth matches Some(d) ==> d > 0,
        ensures
            match r {
                Ok(c) => {
                    &&& (client_id is Some || venue is Some)
                    &&& c.instrument_id == instrument_id
                    &&& c.book_type == book_type
                    &&& c.client_id == client_id
                    &&& c.venue == venue
                    &&& c.depth == depth
                    &&& c.managed == managed
                    &&& c.command_id == command_id
                    &&& c.ts_init == ts_init
                    &&& c.params == params
                },
                Err(e) => {
                    &&& e == CommandError::MissingClientIdAndVenue
                    &&& (client_id is None)
                    &&& (venue is None)
                },
            },
    {
        if client_id.is_none() && venue.is_none() {
            return Err(CommandError::MissingClientIdAndVenue);
        }
        Ok(SubscribeBookDepth10 { instrument_id, book_type, client_id, venue, depth, managed, command_id, ts_init, params })
    }

    /// Builds the command; a client id or a venue must be given.
    pub fn new(instrument_id: InstrumentId, book_type: BookType, client_id: Option<ClientId>, venue: Option<Venue>, depth: Option<usize>, managed: bool, command_id: Uuid4, ts_init: u64, params: Option<Vec<(String, String)>>) -> (r: Self)
        requires
            depth matches Some(d) ==> d > 0,
            client_id is Some || venue is Some,
        ensures
            r.instrument_id == instrument_id,
            r.book_type == book_type,
            r.client_id == client_id,
            r.venue == venue,
            r.depth == depth,
            r.managed == managed,
            r.command_id == command_id,
            r.ts_init == ts_init,
            r.params == params,
    {
        SubscribeBookDepth10 { instrument_id, book_type, client_id, venue, depth, managed, command_id, ts_init, params }
    }
}

/// A command to subscribe to periodic book snapshots.
pub struct SubscribeBookSnapshots {
    pub instrument_id: InstrumentId,
    pub book_type: BookType,
    pub client_id: Option<ClientId>,
    pub venue: Option<Venue>,
    pub depth: Option<usize>,
    pub interval_ms: usize,
    pub command_id: Uuid4,
    pub ts_init: u64,
    pub params: Option<Vec<(String, String)>>,
}

impl SubscribeBookSnapshots {
    /// Builds the command; `Ok` exactly when a client id or a venue is
    /// given, so the command can be routed.
    pub fn new_checked(instrument_id: InstrumentId, book_type: BookType, client_id: Option<ClientId>, venue: Option<Venue>, depth: Option<usize>, interval_ms: usize, command_id: Uuid4, ts_init: u64, params: Option<Vec<(String, String)>>) -> (r: Result<Self, CommandError>)
        requires
            depth matches Some(d) ==> d > 0,
            interval_ms > 0,
        ensures
            match r {
                Ok(c) => {
                    &&& (client_id is Some || venue is Some)
                    &&& c.instrument_id == instrument_id
                    &&& c.book_type == book_type
                    &&& c.client_id == client_id
                    &&& c.venue == venue
                    &&& c.depth == depth
                    &&& c.interval_ms == interval_ms
                    &&& c.command_id == command_id
                    &&& c.ts_init == ts_init
                    &&& c.params == params
                },
                Err(e) => {
                    &&& e == CommandError::MissingClientIdAndVenue
                    &&& (client_id is None)
                    &&& (venue is None)
                },
            },
    {
        if client_id.is_none() && venue.is_none() {
            return Err(CommandError::MissingClientIdAndVenue);
        }
        Ok(SubscribeBookSnapshots { instrument_id, book_type, client_id, venue, depth, interval_ms, command_id, ts_init, params })
    }

    /// Builds the command; a client id or a venue must be given.
    pub fn new(instrument_id: InstrumentId, book_type: BookType, client_id: Option<ClientId>, venue: Option<Venue>, depth: Option<usize>, interval_ms: usize, command_id: Uuid4, ts_init: u64, params: Option<Vec<(String, String)>>) -> (r: Self)
        requires
            depth matches Some(d) ==> d > 0,
            interval_ms > 0,
            client_id is Some || venue is Some,
        ensures
            r.instrument_id == instrument_id,
            r.book_type == book_type,
            r.client_id == client_id,
            r.venue == venue,
            r.depth == depth,
            r.interval_ms == interval_ms,
            r.command_id == command_id,
            r.ts_init == ts_init,
            r.params == params,
    {
        SubscribeBookSnapshots { instrument_id, book_type, client_id, venue, depth, interval_ms, command_id, ts_init, params }
    }
}

/// A command to subscribe to quotes.
pub struct SubscribeQuotes {
    pub instrument_id: InstrumentId,
    pub client_id: Option<ClientId>,
    pub venue: Option<Venue>,
    pub command_id: Uuid4,
    pub ts_init: u64,
    pub params: Option<Vec<(String, String)>>,
}

impl SubscribeQuotes {
    /// Builds the command; `Ok` exactly when a client id or a venue is
    /// given, so the command can be routed.
    pub fn new_checked(instrument_id: InstrumentId, client_id: Option<ClientId>, venue: Option<Venue>, command_id: Uuid4, ts_init: u64, params: Option<Vec<(String, String)>>) -> (r: Result<Self, CommandError>)
        ensures
            match r {
                Ok(c) => {
                    &&& (client_id is Some || venue is Some)
                    &&& c.instrument_id == instrument_id
                    &&& c.client_id == client_id
                    &&& c.venue == venue
                    &&& c.command_id == command_id
                    &&& c.ts_init == ts_init
                    &&& c.params == params
                },
                Err(e) => {
                    &&& e == CommandError::MissingClientIdAndVenue
                    &&& (client_id is None)
                    &&& (venue is None)
                },
            },
    {
        if client_id.is_none() && venue.is_none() {
            return Err(CommandError::MissingClientIdAndVenue);
        }
        Ok(SubscribeQuotes { instrument_id, client_id, venue, command_id, ts_init, params })
    }

    /// Builds the command; a client id or a venue must be given.
    pub fn new(instrument_id: InstrumentId, client_id: Option<ClientId>, venue: Option<Venue>, command_id: Uuid4, ts_init: u64, params: Option<Vec<(String, String)>>) -> (r: Self)
        requires
            client_id is Some || venue is Some,
        ensures
            r.instrument_id == instrument_id,
            r.client_id == client_id,
            r.venue == venue,
            r.command_id == command_id,
            r.ts_init == ts_init,
            r.params == params,
    {
        SubscribeQuotes { instrument_id, client_id, venue, command_id, ts_init, params }
    }
}

/// A command to subscribe to trades.
pub struct SubscribeTrades {
    pub instrument_id: InstrumentId,
    pub client_id: Option<ClientId>,
    pub venue: Option<Venue>,
    pub command_id: Uuid4,
    pub ts_init: u64,
    pub params: Option<Vec<(String, String)>>,
}

impl SubscribeTrades {
    /// Builds the command; `Ok` exactly when a client id or a venue is
    /// given, so the command can be routed.
    pub fn new_checked(instrument_id: InstrumentId, client_id: Option<ClientId>, venue: Option<Venue>, command_id: Uuid4, ts_init: u64, params: Option<Vec<(String, String)>>) -> (r: Result<Self, CommandError>)
        ensures
            match r {
                Ok(c) => {
                    &&& (client_id is Some || venue is Some)
                    &&& c.instrument_id == instrument_id
                    &&& c.client_id == client_id
                    &&& c.venue == venue
                    &&& c.command_id == command_id
                    &&& c.ts_init == ts_init
                    &&& c.params == params
                },
                Err(e) => {
                    &&& e == CommandError::MissingClientIdAndVenue
                    &&& (client_id is None)
                    &&& (venue is None)
                },
            },
    {
        if client_id.is_none() && venue.is_none() {
            return Err(CommandError::MissingClientIdAndVenue);
        }
        Ok(SubscribeTrades { instrument_id, client_id, venue, command_id, ts_init, params })
    }

    /// Builds the command; a client id or a venue must be given.
    pub fn new(instrument_id: InstrumentId, client_id: Option<ClientId>, venue: Option<Venue>, command_id: Uuid4, ts_init: u64, params: Option<Vec<(String, String)>>) -> (r: Self)
        requires
            client_id is Some || venue is Some,
        ensures
            r.instrument_id == instrument_id,
            r.client_id == client_id,
            r.venue == venue,
            r.command_id == command_id,
            r.ts_init == ts_init,
            r.params == params,
    {
        SubscribeTrades { instrument_id, client_id, venue, command_id, ts_init, params }
    }
}

/// A command to subscribe to bars.
pub struct SubscribeBars {
    pub bar_type: BarType,
    pub client_id: Option<ClientId>,
    pub venue: Option<Venue>,
    pub await_partial: bool,
    pub command_id: Uuid4,
    pub ts_init: u64,
    pub params: Option<Vec<(String, String)>>,
}

impl SubscribeBars {
    /// Builds the command; `Ok` exactly when a client id or a venue is
    /// given, so the command can be routed.
    pub fn new_checked(bar_type: BarType, client_id: Option<ClientId>, venue: Option<Venue>, await_partial: bool, command_id: Uuid4, ts_init: u64, params: Option<Vec<(String, String)>>) -> (r: Result<Self, CommandError>)
        ensures
            match r {
                Ok(c) => {
                    &&& (client_id is Some || venue is Some)
                    &&& c.bar_type == bar_type
                    &&& c.client_id == client_id
                    &&& c.venue == venue
                    &&& c.await_partial == await_partial
                    &&& c.command_id == command_id
                    &&& c.ts_init == ts_init
                    &&& c.params == params
                },
                Err(e) => {
                    &&& e == CommandError::MissingClientIdAndVenue
                    &&& (client_id is None)
                    &&& (venue is None)
                },
            },
    {
        if client_id.is_none() && venue.is_none() {
            return Err(CommandError::MissingClientIdAndVenue);
        }
        Ok(SubscribeBars { bar_type, client_id, venue, await_partial, command_id, ts_init, params })
    }

    /// Builds the command; a client id or a venue must be given.
    pub fn new(bar_type: BarType, client_id: Option<ClientId>, venue: Option<Venue>, await_partial: bool, command_id: Uuid4, ts_init: u64, params: Option<Vec<(String, String)>>) -> (r: Self)
        requires
            client_id is Some || venue is Some,
        ensures
            r.bar_type == bar_type,
            r.client_id == client_id,
            r.venue == venue,
            r.await_partial == await_partial,
            r.command_id == command_id,
            r.ts_init == ts_init,
            r.params == params,
    {
        SubscribeBars { bar_type, client_id, venue, await_partial, command_id, ts_init, params }
    }
}

/// A command to subscribe to mark price updates.
pub struct SubscribeMarkPrices {
    pub instrument_id: InstrumentId,
    pub client_id: Option<ClientId>,
    pub venue: Option<Venue>,
    pub command_id: Uuid4,
    pub ts_init: u64,
    pub params: Option<Vec<(String, String)>>,
}

impl SubscribeMarkPrices {
    /// Builds the command; `Ok` exactly when a client id or a venue is
    /// given, so the command can be routed.
    pub fn new_checked(instrument_id: InstrumentId, client_id: Option<ClientId>, venue: Option<Venue>, command_id: Uuid4, ts_init: u64, params: Option<Vec<(String, String)>>) -> (r: Result<Self, CommandError>)
        ensures
            match r {
                Ok(c) => {
                    &&& (client_id is Some || venue is Some)
                    &&& c.instrument_id == instrument_id
                    &&& c.client_id == client_id
                    &&& c.venue == venue
                    &&& c.command_id == command_id
                    &&& c.ts_init == ts_init
                    &&& c.params == params
                },
                Err(e) => {
                    &&& e == CommandError::MissingClientIdAndVenue
                    &&& (client_id is None)
                    &&& (venue is None)
                },
            },
    {
        if client_id.is_none() && venue.is_none() {
            return Err(CommandError::MissingClientIdAndVenue);
        }
        Ok(SubscribeMarkPrices { instrument_id, client_id, venue, command_id, ts_init, params })
    }

    /// Builds the command; a client id or a venue must be given.
    pub fn new(instrument_id: InstrumentId, client_id: Option<ClientId>, venue: Option<Venue>, command_id: Uuid4, ts_init: u64, params: Option<Vec<(String, String)>>) -> (r: Self)
        requires
            client_id is Some || venue is Some,
        ensures
            r.instrument_id == instrument_id,
            r.client_id == client_id,
            r.venue == venue,
            r.command_id == command_id,
            r.ts_init == ts_init,
            r.params == params,
    {
        SubscribeMarkPrices { instrument_id, client_id, venue, command_id, ts_init, params }
    }
}

/// A command to subscribe to index price updates.
pub struct SubscribeIndexPrices {
    pub instrument_id: InstrumentId,
    pub client_id: Option<ClientId>,
    pub venue: Option<Venue>,
    pub command_id: Uuid4,
    pub ts_init: u64,
    pub params: Option<Vec<(String, String)>>,
}

impl SubscribeIndexPrices {
    /// Builds the command; `Ok` exactly when a client id or a venue is
    /// given, so the command can be routed.
    pub fn new_checked(instrument_id: InstrumentId, client_id: Option<ClientId>, venue: Option<Venue>, command_id: Uuid4, ts_init: u64, params: Option<Vec<(String, String)>>) -> (r: Result<Self, CommandError>)
        ensures
            match r {
                Ok(c) => {
                    &&& (client_id is Some || venue is Some)
                    &&& c.instrument_id == instrument_id
                    &&& c.client_id == client_id
                    &&& c.venue == venue
                    &&& c.command_id == command_id
                    &&& c.ts_init == ts_init
                    &&& c.params == params
                },
                Err(e) => {
                    &&& e == CommandError::MissingClientIdAndVenue
                    &&& (client_id is None)
                    &&& (venue is None)
                },
            },
    {
        if client_id.is_none() && venue.is_none() {
            return Err(CommandError::MissingClientIdAndVenue);
        }
        Ok(SubscribeIndexPrices { instrument_id, client_id, venue, command_id, ts_init, params })
    }

    /// Builds the command; a client id or a venue must be given.
    pub fn new(instrument_id: InstrumentId, client_id: Option<ClientId>, venue: Option<Venue>, command_id: Uuid4, ts_init: u64, params: Option<Vec<(String, String)>>) -> (r: Self)
        requires
            client_id is Some || venue is Some,
        ensures
            r.instrument_id == instrument_id,
            r.client_id == client_id,
            r.venue == venue,
            r.command_id == command_id,
            r.ts_init == ts_init,
            r.params == params,
    {
        SubscribeIndexPrices { instrument_id, client_id, venue, command_id, ts_init, params }
    }
}

/// A command to subscribe to instrument status updates.
pub struct SubscribeInstrumentStatus {
    pub instrument_id: InstrumentId,
    pub client_id: Option<ClientId>,
    pub venue: Option<Venue>,
    pub command_id: Uuid4,
    pub ts_init: u64,
    pub params: Option<Vec<(String, String)>>,
}

impl SubscribeInstrumentStatus {
    /// Builds the command; `Ok` exactly when a client id or a venue is
    /// given, so the command can be routed.
    pub fn new_checked(instrument_id: InstrumentId, client_id: Option<ClientId>, venue: Option<Venue>, command_id: Uuid4, ts_init: u64, params: Option<Vec<(String, String)>>) -> (r: Result<Self, CommandError>)
        ensures
            match r {
                Ok(c) => {
                    &&& (client_id is Some || venue is Some)
                    &&& c.instrument_id == instrument_id
                    &&& c.client_id == client_id
                    &&& c.venue == venue
                    &&& c.command_id == command_id
                    &&& c.ts_init == ts_init
                    &&& c.params == params
                },
                Err(e) => {
                    &&& e == CommandError::MissingClientIdAndVenue
                    &&& (client_id is None)
                    &&& (venue is None)
                },
            },
    {
        if client_id.is_none() && venue.is_none() {
            return Err(CommandError::MissingClientIdAndVenue);
        }
        Ok(SubscribeInstrumentStatus { instrument_id, client_id, venue, command_id, ts_init, params })
    }

    /// Builds the command; a client id or a venue must be given.
    pub fn new(instrument_id: InstrumentId, client_id: Option<ClientId>, venue: Option<Venue>, command_id: Uuid4, ts_init: u64, params: Option<Vec<(String, String)>>) -> (r: Self)
        requires
            client_id is Some || venue is Some,
        ensures
            r.instrument_id == instrument_id,
            r.client_id == client_id,
            r.venue == venue,
            r.command_id == command_id,
            r.ts_init == ts_init,
            r.params == params,
    {
        SubscribeInstrumentStatus { instrument_id, client_id, venue, command_id, ts_init, params }
    }
}

/// A command to subscribe to instrument close updates.
pub struct SubscribeInstrumentClose {
    pub instrument_id: InstrumentId,
    pub client_id: Option<ClientId>,
    pub venue: Option<Venue>,
    pub command_id: Uuid4,
    pub ts_init: u64,
    pub params: Option<Vec<(String, String)>>,
}

impl SubscribeInstrumentClose {
    /// Builds the command; `Ok` exactly when a client id or a venue is
    /// given, so the command can be routed.
    pub fn new_checked(instrument_id: InstrumentId, client_id: Option<ClientId>, venue: Option<Venue>, command_id: Uuid4, ts_init: u64, params: Option<Vec<(String, String)>>) -> (r: Result<Self, CommandError>)
        ensures
            match r {
                Ok(c) => {
                    &&& (client_id is Some || venue is Some)
                    &&& c.instrument_id == instrument_id
                    &&& c.client_id == client_id
                    &&& c.venue == venue
                    &&& c.command_id == command_id
                    &&& c.ts_init == ts_init
                    &&& c.params == params
                },
                Err(e) => {
                    &&& e == CommandError::MissingClientIdAndVenue
                    &&& (client_id is None)
                    &&& (venue is None)
                },
            },
    {
        if client_id.is_none() && venue.is_none() {
            return Err(CommandError::MissingClientIdAndVenue);
        }
        Ok(SubscribeInstrumentClose { instrument_id, client_id, venue, command_id, ts_init, params })
    }

    /// Builds the command; a client id or a venue must be given.
    pub fn new(instrument_id: InstrumentId, client_id: Option<ClientId>, venue: Option<Venue>, command_id: Uuid4, ts_init: u64, params: Option<Vec<(String, String)>>) -> (r: Self)
        requires
            client_id is Some || venue is Some,
        ensures
            r.instrument_id == instrument_id,
            r.client_id == client_id,
            r.venue == venue,
            r.command_id == command_id,
            r.ts_init == ts_init,
            r.params == params,
    {
        SubscribeInstrumentClose { instrument_id, client_id, venue, command_id, ts_init, params }
    }
}

/// A command to unsubscribe from a custom data stream.
pub struct UnsubscribeData {
    pub client_id: Option<ClientId>,
    pub venue: Option<Venue>,
    pub data_type: DataType,
    pub command_id: Uuid4,
    pub ts_init: u64,
    pub params: Option<Vec<(String, String)>>,
}

impl UnsubscribeData {
    /// Builds the command; `Ok` exactly when a client id or a venue is
    /// given, so the command can be routed.
    pub fn new_checked(client_id: Option<ClientId>, venue: Option<Venue>, data_type: DataType, command_id: Uuid4, ts_init: u64, params: Option<Vec<(String, String)>>) -> (r: Result<Self, CommandError>)
        ensures
            match r {
                Ok(c) => {
                    &&& (client_id is Some || venue is Some)
                    &&& c.client_id == client_id
                    &&& c.venue == venue
                    &&& c.data_type == data_type
                    &&& c.command_id == command_id
                    &&& c.ts_init == ts_init
                    &&& c.params == params
                },
                Err(e) => {
                    &&& e == CommandError::MissingClientIdAndVenue
                    &&& (client_id is None)
                    &&& (venue is None)
                },
            },
    {
        if client_id.is_none() && venue.is_none() {
            return Err(CommandError::MissingClientIdAndVenue);
        }
        Ok(UnsubscribeData { client_id, venue, data_type, command_id, ts_init, params })
    }

    /// Builds the command; a client id or a venue must be given.
    pub fn new(client_id: Option<ClientId>, venue: Option<Venue>, data_type: DataType, command_id: Uuid4, ts_init: u64, params: Option<Vec<(String, String)>>) -> (r: Self)
        requires
            client_id is Some || venue is Some,
        ensures
            r.client_id == client_id,
            r.venue == venue,
            r.data_type == data_type,
            r.command_id == command_id,
            r.ts_init == ts_init,
            r.params == params,
    {
        UnsubscribeData { client_id, venue, data_type, command_id, ts_init, params }
    }
}

/// A command to unsubscribe from all instrument definitions of a venue.
pub struct UnsubscribeInstruments {
    pub client_id: Option<ClientId>,
    pub venue: Venue,
    pub command_id: Uuid4,
    pub ts_init: u64,
    pub params: Option<Vec<(String, String)>>,
}

impl UnsubscribeInstruments {
    /// Builds the command.
    pub fn new(client_id: Option<ClientId>, venue: Venue, command_id: Uuid4, ts_init: u64, params: Option<Vec<(String, String)>>) -> (r: Self)
        ensures
            r.client_id == client_id,
            r.venue == venue,
            r.command_id == command_id,
            r.ts_init == ts_init,
            r.params == params,
    {
        UnsubscribeInstruments { client_id, venue, command_id, ts_init, params }
    }
}

/// A command to unsubscribe from one instrument's definition updates.
pub struct UnsubscribeInstrument {
    pub instrument_id: InstrumentId,
    pub client_id: Option<ClientId>,
    pub venue: Option<Venue>,
    pub command_id: Uuid4,
    pub ts_init: u64,
    pub params: Option<Vec<(String, String)>>,
}

impl UnsubscribeInstrument {
    /// Builds the command; `Ok` exactly when a client id or a venue is
    /// given, so the command can be routed.
    pub fn new_checked(instrument_id: InstrumentId, client_id: Option<ClientId>, venue: Option<Venue>, command_id: Uuid4, ts_init: u64, params: Option<Vec<(String, String)>>) -> (r: Result<Self, CommandError>)
        ensures
            match r {
                Ok(c) => {
                    &&& (client_id is Some || venue is Some)
                    &&& c.instrument_id == instrument_id
                    &&& c.client_id == client_id
                    &&& c.venue == venue
                    &&& c.command_id == command_id
                    &&& c.ts_init == ts_init
                    &&& c.params == params
                },
                Err(e) => {
                    &&& e == CommandError::MissingClientIdAndVenue
                    &&& (client_id is None)
                    &&& (venue is None)
                },
            },
    {
        if client_id.is_none() && venue.is_none() {
            return Err(CommandError::MissingClientIdAndVenue);
        }
        Ok(UnsubscribeInstrument { instrument_id, client_id, venue, command_id, ts_init, params })
    }

    /// Builds the command; a client id or a venue must be given.
    pub fn new(instrument_id: InstrumentId, client_id: Option<ClientId>, venue: Option<Venue>, command_id: Uuid4, ts_init: u64, params: Option<Vec<(String, String)>>) -> (r: Self)
        requires
            client_id is Some || venue is Some,
        ensures
            r.instrument_id == instrument_id,
            r.client_id == client_id,
            r.venue == venue,
            r.command_id == command_id,
            r.ts_init == ts_init,
            r.params == params,
    {
        UnsubscribeInstrument { instrument_id, client_id, venue, command_id, ts_init, params }
    }
}

/// A command to unsubscribe from order book deltas.
pub struct UnsubscribeBookDeltas {
    pub instrument_id: InstrumentId,
    pub client_id: Option<ClientId>,
    pub venue: Option<Venue>,
    pub command_id: Uuid4,
    pub ts_init: u64,
    pub params: Option<Vec<(String, String)>>,
}

impl UnsubscribeBookDeltas {
    /// Builds the command; `Ok` exactly when a client id or a venue is
    /// given, so the command can be routed.
    pub fn new_checked(instrument_id: InstrumentId, client_id: Option<ClientId>, venue: Option<Venue>, command_id: Uuid4, ts_init: u64, params: Option<Vec<(String, String)>>) -> (r: Result<Self, CommandError>)
        ensures
            match r {
                Ok(c) => {
                    &&& (client_id is Some || venue is Some)
                    &&& c.instrument_id == instrument_id
                    &&& c.client_id == client_id
                    &&& c.venue == venue
                    &&& c.command_id == command_id
                    &&& c.ts_init == ts_init
                    &&& c.params == params
                },
                Err(e) => {
                    &&& e == CommandError::MissingClientIdAndVenue
                    &&& (client_id is None)
                    &&& (venue is None)
                },
            },
    {
        if client_id.is_none() && venue.is_none() {
            return Err(CommandError::MissingClientIdAndVenue);
        }
        Ok(UnsubscribeBookDeltas { instrument_id, client_id, venue, command_id, ts_init, params })
    }

    /// Builds the command; a client id or a venue must be given.
    pub fn new(instrument_id: InstrumentId, client_id: Option<ClientId>, venue: Option<Venue>, command_id: Uuid4, ts_init: u64, params: Option<Vec<(String, String)>>) -> (r: Self)
        requires
            client_id is Some || venue is Some,
        ensures
            r.instrument_id == instrument_id,
            r.client_id == client_id,
            r.venue == venue,
            r.command_id == command_id,
            r.ts_init == ts_init,
            r.params == params,
    {
        UnsubscribeBookDeltas { instrument_id, client_id, venue, command_id, ts_init, params }
    }
}

/// A command to unsubscribe from ten-level book depth.
pub struct UnsubscribeBookDepth10 {
    pub instrument_id: InstrumentId,
    pub client_id: Option<ClientId>,
    pub venue: Option<Venue>,
    pub command_id: Uuid4,
    pub ts_init: u64,
    pub params: Option<Vec<(String, String)>>,
}

impl UnsubscribeBookDepth10 {
    /// Builds the command; `Ok` exactly when a client id or a venue is
    /// given, so the command can be routed.
    pub fn new_checked(instrument_id: InstrumentId, client_id: Option<ClientId>, venue: Option<Venue>, command_id: Uuid4, ts_init: u64, params: Option<Vec<(String, String)>>) -> (r: Result<Self, CommandError>)
        ensures
            match r {
                Ok(c) => {
                    &&& (client_id is Some || venue is Some)
                    &&& c.instrument_id == instrument_id
                    &&& c.client_id == client_id
                    &&& c.venue == venue
                    &&& c.command_id == command_id
                    &&& c.ts_init == ts_init
                    &&& c.params == params
                },
                Err(e) => {
                    &&& e == CommandError::MissingClientIdAndVenue
                    &&& (client_id is None)
                    &&& (venue is None)
                },
            },
    {
        if client_id.is_none() && venue.is_none() {
            return Err(CommandError::MissingClientIdAndVenue);
        }
        Ok(UnsubscribeBookDepth10 { instrument_id, client_id, venue, command_id, ts_init, params })
    }

    /// Builds the command; a client id or a venue must be given.
    pub fn new(instrument_id: InstrumentId, client_id: Option<ClientId>, venue: Option<Venue>, command_id: Uuid4, ts_init: u64, params: Option<Vec<(String, String)>>) -> (r: Self)
        requires
            client_id is Some || venue is Some,
        ensures
            r.instrument_id == instrument_id,
            r.client_id == client_id,
            r.venue == venue,
            r.command_id == command_id,
            r.ts_init == ts_init,
            r.params == params,
    {
        UnsubscribeBookDepth10 { instrument_id, client_id, venue, command_id, ts_init, params }
    }
}

/// A command to unsubscribe from periodic book snapshots.
pub struct UnsubscribeBookSnapshots {
    pub instrument_id: InstrumentId,
    pub client_id: Option<ClientId>,
    pub venue: Option<Venue>,
    pub command_id: Uuid4,
    pub ts_init: u64,
    pub params: Option<Vec<(String, String)>>,
}

impl UnsubscribeBookSnapshots {
    /// Builds the command; `Ok` exactly when a client id or a venue is
    /// given, so the command can be routed.
    pub fn new_checked(instrument_id: InstrumentId, client_id: Option<ClientId>, venue: Option<Venue>, command_id: Uuid4, ts_init: u64, params: Option<Vec<(String, String)>>) -> (r: Result<Self, CommandError>)
        ensures
            match r {
                Ok(c) => {
                    &&& (client_id is Some || venue is Some)
                    &&& c.instrument_id == instrument_id
                    &&& c.client_id == client_id
                    &&& c.venue == venue
                    &&& c.command_id == command_id
                    &&& c.ts_init == ts_init
                    &&& c.params == params
                },
                Err(e) => {
                    &&& e == CommandError::MissingClientIdAndVenue
                    &&& (client_id is None)
                    &&& (venue is None)
                },
            },
    {
        if client_id.is_none() && venue.is_none() {
            return Err(CommandError::MissingClientIdAndVenue);
        }
        Ok(UnsubscribeBookSnapshots { instrument_id, client_id, venue, command_id, ts_init, params })
    }

    /// Builds the command; a client id or a venue must be given.
    pub fn new(instrument_id: InstrumentId, client_id: Option<ClientId>, venue: Option<Venue>, command_id: Uuid4, ts_init: u64, params: Option<Vec<(String, String)>>) -> (r: Self)
        requires
            client_id is Some || venue is Some,
        ensures
            r.instrument_id == instrument_id,
            r.client_id == client_id,
            r.venue == venue,
            r.command_id == command_id,
            r.ts_init == ts_init,
            r.params == params,
    {
        UnsubscribeBookSnapshots { instrument_id, client_id, venue, command_id, ts_init, params }
    }
}

/// A command to unsubscribe from quotes.
pub struct UnsubscribeQuotes {
    pub instrument_id: InstrumentId,
    pub client_id: Option<ClientId>,
    pub venue: Option<Venue>,
    pub command_id: Uuid4,
    pub ts_init: u64,
    pub params: Option<Vec<(String, String)>>,
}

impl UnsubscribeQuotes {
    /// Builds the command; `Ok` exactly when a client id or a venue is
    /// given, so the command can be routed.
    pub fn new_checked(instrument_id: InstrumentId, client_id: Option<ClientId>, venue: Option<Venue>, command_id: Uuid4, ts_init: u64, params: Option<Vec<(String, String)>>) -> (r: Result<Self, CommandError>)
        ensures
            match r {
                Ok(c) => {
                    &&& (client_id is Some || venue is Some)
                    &&& c.instrument_id == instrument_id
                    &&& c.client_id == client_id
                    &&& c.venue == venue
                    &&& c.command_id == command_id
                    &&& c.ts_init == ts_init
                    &&& c.params == params
                },
                Err(e) => {
                    &&& e == CommandError::MissingClientIdAndVenue
                    &&& (client_id is None)
                    &&& (venue is None)
                },
            },
    {
        if client_id.is_none() && venue.is_none() {
            return Err(CommandError::MissingClientIdAndVenue);
        }
        Ok(UnsubscribeQuotes { instrument_id, client_id, venue, command_id, ts_init, params })
    }

    /// Builds the command; a client id or a venue must be given.
    pub fn new(instrument_id: InstrumentId, client_id: Option<ClientId>, venue: Option<Venue>, command_id: Uuid4, ts_init: u64, params: Option<Vec<(String, String)>>) -> (r: Self)
        requires
            client_id is Some || venue is Some,
        ensures
            r.instrument_id == instrument_id,
            r.client_id == client_id,
            r.venue == venue,
            r.command_id == command_id,
            r.ts_init == ts_init,
            r.params == params,
    {
        UnsubscribeQuotes { instrument_id, client_id, venue, command_id, ts_init, params }
    }
}

/// A command to unsubscribe from trades.
pub struct UnsubscribeTrades {
    pub instrument_id: InstrumentId,
    pub client_id: Option<ClientId>,
    pub venue: Option<Venue>,
    pub command_id: Uuid4,
    pub ts_init: u64,
    pub params: Option<Vec<(String, String)>>,
}

impl UnsubscribeTrades {
    /// Builds the command; `Ok` exactly when a client id or a venue is
    /// given, so the command can be routed.
    pub fn new_checked(instrument_id: InstrumentId, client_id: Option<ClientId>, venue: Option<Venue>, command_id: Uuid4, ts_init: u64, params: Option<Vec<(String, String)>>) -> (r: Result<Self, CommandError>)
        ensures
            match r {
                Ok(c) => {
                    &&& (client_id is Some || venue is Some)
                    &&& c.instrument_id == instrument_id
                    &&& c.client_id == client_id
                    &&& c.venue == venue
                    &&& c.command_id == command_id
                    &&& c.ts_init == ts_init
                    &&& c.params == params
                },
                Err(e) => {
                    &&& e == CommandError::MissingClientIdAndVenue
                    &&& (client_id is None)
                    &&& (venue is None)
                },
            },
    {
        if client_id.is_none() && venue.is_none() {
            return Err(CommandError::MissingClientIdAndVenue);
        }
        Ok(UnsubscribeTrades { instrument_id, client_id, venue, command_id, ts_init, params })
    }

    /// Builds the command; a client id or a venue must be given.
    pub fn new(instrument_id: InstrumentId, client_id: Option<ClientId>, venue: Option<Venue>, command_id: Uuid4, ts_init: u64, params: Option<Vec<(String, String)>>) -> (r: Self)
        requires
            client_id is Some || venue is Some,
        ensures
            r.instrument_id == instrument_id,
            r.client_id == client_id,
            r.venue == venue,
            r.command_id == command_id,
            r.ts_init == ts_init,
            r.params == params,
    {
        UnsubscribeTrades { instrument_id, client_id, venue, command_id, ts_init, params }
    }
}

/// A command to unsubscribe from bars.
pub struct UnsubscribeBars {
    pub bar_type: BarType,
    pub client_id: Option<ClientId>,
    pub venue: Option<Venue>,
    pub command_id: Uuid4,
    pub ts_init: u64,
    pub params: Option<Vec<(String, String)>>,
}

impl UnsubscribeBars {
    /// Builds the command; `Ok` exactly when a client id or a venue is
    /// given, so the command can be routed.
    pub fn new_checked(bar_type: BarType, client_id: Option<ClientId>, venue: Option<Venue>, command_id: Uuid4, ts_init: u64, params: Option<Vec<(String, String)>>) -> (r: Result<Self, CommandError>)
        ensures
            match r {
                Ok(c) => {
                    &&& (client_id is Some || venue is Some)
                    &&& c.bar_type == bar_type
                    &&& c.client_id == client_id
                    &&& c.venue == venue
                    &&& c.command_id == command_id
                    &&& c.ts_init == ts_init
                    &&& c.params == params
                },
                Err(e) => {
                    &&& e == CommandError::MissingClientIdAndVenue
                    &&& (client_id is None)
                    &&& (venue is None)
                },
            },
    {
        if client_id.is_none() && venue.is_none() {
            return Err(CommandError::MissingClientIdAndVenue);
        }
        Ok(UnsubscribeBars { bar_type, client_id, venue, command_id, ts_init, params })
    }

    /// Builds the command; a client id or a venue must be given.
    pub fn new(bar_type: BarType, client_id: Option<ClientId>, venue: Option<Venue>, command_id: Uuid4, ts_init: u64, params: Option<Vec<(String, String)>>) -> (r: Self)
        requires
            client_id is Some || venue is Some,
        ensures
            r.bar_type == bar_type,
            r.client_id == client_id,
            r.venue == venue,
            r.command_id == command_id,
            r.ts_init == ts_init,
            r.params == params,
    {
        UnsubscribeBars { bar_type, client_id, venue, command_id, ts_init, params }
    }
}

/// A command to unsubscribe from mark price updates.
pub struct UnsubscribeMarkPrices {
    pub instrument_id: InstrumentId,
    pub client_id: Option<ClientId>,
    pub venue: Option<Venue>,
    pub command_id: Uuid4,
    pub ts_init: u64,
    pub params: Option<Vec<(String, String)>>,
}

impl UnsubscribeMarkPrices {
    /// Builds the command; `Ok` exactly when a client id or a venue is
    /// given, so the command can be routed.
    pub fn new_checked(instrument_id: InstrumentId, client_id: Option<ClientId>, venue: Option<Venue>, command_id: Uuid4, ts_init: u64, params: Option<Vec<(String, String)>>) -> (r: Result<Self, CommandError>)
        ensures
            match r {
                Ok(c) => {
                    &&& (client_id is Some || venue is Some)
                    &&& c.instrument_id == instrument_id
                    &&& c.client_id == client_id
                    &&& c.venue == venue
                    &&& c.command_id == command_id
                    &&& c.ts_init == ts_init
                    &&& c.params == params
                },
                Err(e) => {
                    &&& e == CommandError::MissingClientIdAndVenue
                    &&& (client_id is None)
                    &&& (venue is None)
                },
            },
    {
        if client_id.is_none() && venue.is_none() {
            return Err(CommandError::MissingClientIdAndVenue);
        }
        Ok(UnsubscribeMarkPrices { instrument_id, client_id, venue, command_id, ts_init, params })
    }

    /// Builds the command; a client id or a venue must be given.
    pub fn new(instrument_id: InstrumentId, client_id: Option<ClientId>, venue: Option<Venue>, command_id: Uuid4, ts_init: u64, params: Option<Vec<(String, String)>>) -> (r: Self)
        requires
            client_id is Some || venue is Some,
        ensures
            r.instrument_id == instrument_id,
            r.client_id == client_id,
            r.venue == venue,
            r.command_id == command_id,
            r.ts_init == ts_init,
            r.params == params,
    {
        UnsubscribeMarkPrices { instrument_id, client_id, venue, command_id, ts_init, params }
    }
}

/// A command to unsubscribe from index price updates.
pub struct UnsubscribeIndexPrices {
    pub instrument_id: InstrumentId,
    pub client_id: Option<ClientId>,
    pub venue: Option<Venue>,
    pub command_id: Uuid4,
    pub ts_init: u64,
    pub params: Option<Vec<(String, String)>>,
}

impl UnsubscribeIndexPrices {
    /// Builds the command; `Ok` exactly when a client id or a venue is
    /// given, so the command can be routed.
    pub fn new_checked(instrument_id: InstrumentId, client_id: Option<ClientId>, venue: Option<Venue>, command_id: Uuid4, ts_init: u64, params: Option<Vec<(String, String)>>) -> (r: Result<Self, CommandError>)
        ensures
            match r {
                Ok(c) => {
                    &&& (client_id is Some || venue is Some)
                    &&& c.instrument_id == instrument_id
                    &&& c.client_id == client_id
                    &&& c.venue == venue
                    &&& c.command_id == command_id
                    &&& c.ts_init == ts_init
                    &&& c.params == params
                },
                Err(e) => {
                    &&& e == CommandError::MissingClientIdAndVenue
                    &&& (client_id is None)
                    &&& (venue is None)
                },
            },
    {
        if client_id.is_none() && venue.is_none() {
            return Err(CommandError::MissingClientIdAndVenue);
        }
        Ok(UnsubscribeIndexPrices { instrument_id, client_id, venue, command_id, ts_init, params })
    }

    /// Builds the command; a client id or a venue must be given.
    pub fn new(instrument_id: InstrumentId, client_id: Option<ClientId>, venue: Option<Venue>, command_id: Uuid4, ts_init: u64, params: Option<Vec<(String, String)>>) -> (r: Self)
        requires
            client_id is Some || venue is Some,
        ensures
            r.instrument_id == instrument_id,
            r.client_id == client_id,
            r.venue == venue,
            r.command_id == command_id,
            r.ts_init == ts_init,
            r.params == params,
    {
        UnsubscribeIndexPrices { instrument_id, client_id, venue, command_id, ts_init, params }
    }
}

/// A command to unsubscribe from instrument status updates.
pub struct UnsubscribeInstrumentStatus {
    pub instrument_id: InstrumentId,
    pub client_id: Option<ClientId>,
    pub venue: Option<Venue>,
    pub command_id: Uuid4,
    pub ts_init: u64,
    pub params: Option<Vec<(String, String)>>,
}

impl UnsubscribeInstrumentStatus {
    /// Builds the command; `Ok` exactly when a client id or a venue is
    /// given, so the command can be routed.
    pub fn new_checked(instrument_id: InstrumentId, client_id: Option<ClientId>, venue: Option<Venue>, command_id: Uuid4, ts_init: u64, params: Option<Vec<(String, String)>>) -> (r: Result<Self, CommandError>)
        ensures
            match r {
                Ok(c) => {
                    &&& (client_id is Some || venue is Some)
                    &&& c.instrument_id == instrument_id
                    &&& c.client_id == client_id
                    &&& c.venue == venue
                    &&& c.command_id == command_id
                    &&& c.ts_init == ts_init
                    &&& c.params == params
                },
                Err(e) => {
                    &&& e == CommandError::MissingClientIdAndVenue
                    &&& (client_id is None)
                    &&& (venue is None)
                },
            },
    {
        if client_id.is_none() && venue.is_none() {
            return Err(CommandError::MissingClientIdAndVenue);
        }
        Ok(UnsubscribeInstrumentStatus { instrument_id, client_id, venue, command_id, ts_init, params })
    }

    /// Builds the command; a client id or a venue must be given.
    pub fn new(instrument_id: InstrumentId, client_id: Option<ClientId>, venue: Option<Venue>, command_id: Uuid4, ts_init: u64, params: Option<Vec<(String, String)>>) -> (r: Self)
        requires
            client_id is Some || venue is Some,
        ensures
            r.instrument_id == instrument_id,
            r.client_id == client_id,
            r.venue == venue,
            r.command_id == command_id,
            r.ts_init == ts_init,
            r.params == params,
    {
        UnsubscribeInstrumentStatus { instrument_id, client_id, venue, command_id, ts_init, params }
    }
}

/// A command to unsubscribe from instrument close updates.
pub struct UnsubscribeInstrumentClose {
    pub instrument_id: InstrumentId,
    pub client_id: Option<ClientId>,
    pub venue: Option<Venue>,
    pub command_id: Uuid4,
    pub ts_init: u64,
    pub params: Option<Vec<(String, String)>>,
}

impl UnsubscribeInstrumentClose {
    /// Builds the command; `Ok` exactly when a client id or a venue is
    /// given, so the command can be routed.
    pub fn new_checked(instrument_id: InstrumentId, client_id: Option<ClientId>, venue: Option<Venue>, command_id: Uuid4, ts_init: u64, params: Option<Vec<(String, String)>>) -> (r: Result<Self, CommandError>)
        ensures
            match r {
                Ok(c) => {
                    &&& (client_id is Some || venue is Some)
                    &&& c.instrument_id == instrument_id
                    &&& c.client_id == client_id
                    &&& c.venue == venue
                    &&& c.command_id == command_id
                    &&& c.ts_init == ts_init
                    &&& c.params == params
                },
                Err(e) => {
                    &&& e == CommandError::MissingClientIdAndVenue
                    &&& (client_id is None)
                    &&& (venue is None)
                },
            },
    {
        if client_id.is_none() && venue.is_none() {
            return Err(CommandError::MissingClientIdAndVenue);
        }
        Ok(UnsubscribeInstrumentClose { instrument_id, client_id, venue, command_id, ts_init, params })
    }

    /// Builds the command; a client id or a venue must be given.
    pub fn new(instrument_id: InstrumentId, client_id: Option<ClientId>, venue: Option<Venue>, command_id: Uuid4, ts_init: u64, params: Option<Vec<(String, String)>>) -> (r: Self)
        requires
            client_id is Some || venue is Some,
        ensures
            r.instrument_id == instrument_id,
            r.client_id == client_id,
            r.venue == venue,
            r.command_id == command_id,
            r.ts_init == ts_init,
            r.params == params,
    {
        UnsubscribeInstrumentClose { instrument_id, client_id, venue, command_id, ts_init, params }
    }
}

/// Any subscription command, by data kind.
pub enum SubscribeCommand {
    Data(SubscribeData),
    Instruments(SubscribeInstruments),
    Instrument(SubscribeInstrument),
    BookDeltas(SubscribeBookDeltas),
    BookDepth10(SubscribeBookDepth10),
    BookSnapshots(SubscribeBookSnapshots),
    Quotes(SubscribeQuotes),
    Trades(SubscribeTrades),
    Bars(SubscribeBars),
    MarkPrices(SubscribeMarkPrices),
    IndexPrices(SubscribeIndexPrices),
    InstrumentStatus(SubscribeInstrumentStatus),
    InstrumentClose(SubscribeInstrumentClose),
}

impl SubscribeCommand {
    /// The unique identifier of the command.
    pub fn command_id(&self) -> (r: Uuid4)
        ensures
            r == self.command_id_spec(),
    {
        match self {
            SubscribeCommand::Data(cmd) => cmd.command_id,
            SubscribeCommand::Instruments(cmd) => cmd.command_id,
            SubscribeCommand::Instrument(cmd) => cmd.command_id,
            SubscribeCommand::BookDeltas(cmd) => cmd.command_id,
            SubscribeCommand::BookDepth10(cmd) => cmd.command_id,
            SubscribeCommand::BookSnapshots(cmd) => cmd.command_id,
            SubscribeCommand::Quotes(cmd) => cmd.command_id,
            SubscribeCommand::Trades(cmd) => cmd.command_id,
            SubscribeCommand::Bars(cmd) => cmd.command_id,
            SubscribeCommand::MarkPrices(cmd) => cmd.command_id,
            SubscribeCommand::IndexPrices(cmd) => cmd.command_id,
            SubscribeCommand::InstrumentStatus(cmd) => cmd.command_id,
            SubscribeCommand::InstrumentClose(cmd) => cmd.command_id,
        }
    }

    /// The unique identifier of the command.
    pub open spec fn command_id_spec(&self) -> Uuid4 {
        match self {
            SubscribeCommand::Data(cmd) => cmd.command_id,
            SubscribeCommand::Instruments(cmd) => cmd.command_id,
            SubscribeCommand::Instrument(cmd) => cmd.command_id,
            SubscribeCommand::BookDeltas(cmd) => cmd.command_id,
            SubscribeCommand::BookDepth10(cmd) => cmd.command_id,
            SubscribeCommand::BookSnapshots(cmd) => cmd.command_id,
            SubscribeCommand::Quotes(cmd) => cmd.command_id,
            SubscribeCommand::Trades(cmd) => cmd.command_id,
            SubscribeCommand::Bars(cmd) => cmd.command_id,
            SubscribeCommand::MarkPrices(cmd) => cmd.command_id,
            SubscribeCommand::IndexPrices(cmd) => cmd.command_id,
            SubscribeCommand::InstrumentStatus(cmd) => cmd.command_id,
            SubscribeCommand::InstrumentClose(cmd) => cmd.command_id,
        }
    }

    /// The explicit data client the command is routed to, if any.
    pub fn client_id(&self) -> (r: Option<&ClientId>)
        ensures
            match r {
                Some(c) => self.client_id_spec() == Some(*c),
                None => self.client_id_spec() is None,
            },
    {
        match self {
            SubscribeCommand::Data(cmd) => cmd.client_id.as_ref(),
            SubscribeCommand::Instruments(cmd) => cmd.client_id.as_ref(),
            SubscribeCommand::Instrument(cmd) => cmd.client_id.as_ref(),
            SubscribeCommand::BookDeltas(cmd) => cmd.client_id.as_ref(),
            SubscribeCommand::BookDepth10(cmd) => cmd.client_id.as_ref(),
            SubscribeCommand::BookSnapshots(cmd) => cmd.client_id.as_ref(),
            SubscribeCommand::Quotes(cmd) => cmd.client_id.as_ref(),
            SubscribeCommand::Trades(cmd) => cmd.client_id.as_ref(),
            SubscribeCommand::Bars(cmd) => cmd.client_id.as_ref(),
            SubscribeCommand::MarkPrices(cmd) => cmd.client_id.as_ref(),
            SubscribeCommand::IndexPrices(cmd) => cmd.client_id.as_ref(),
            SubscribeCommand::InstrumentStatus(cmd) => cmd.client_id.as_ref(),
            SubscribeCommand::InstrumentClose(cmd) => cmd.client_id.as_ref(),
        }
    }

    /// The explicit data client the command is routed to, if any.
    pub open spec fn client_id_spec(&self) -> Option<ClientId> {
        match self {
            SubscribeCommand::Data(cmd) => cmd.client_id,
            SubscribeCommand::Instruments(cmd) => cmd.client_id,
            SubscribeCommand::Instrument(cmd) => cmd.client_id,
            SubscribeCommand::BookDeltas(cmd) => cmd.client_id,
            SubscribeCommand::BookDepth10(cmd) => cmd.client_id,
            SubscribeCommand::BookSnapshots(cmd) => cmd.client_id,
            SubscribeCommand::Quotes(cmd) => cmd.client_id,
            SubscribeCommand::Trades(cmd) => cmd.client_id,
            SubscribeCommand::Bars(cmd) => cmd.client_id,
            SubscribeCommand::MarkPrices(cmd) => cmd.client_id,
            SubscribeCommand::IndexPrices(cmd) => cmd.client_id,
            SubscribeCommand::InstrumentStatus(cmd) => cmd.client_id,
            SubscribeCommand::InstrumentClose(cmd) => cmd.client_id,
        }
    }

    /// The venue the command concerns, if any.
    pub fn venue(&self) -> (r: Option<&Venue>)
        ensures
            match r {
                Some(vn) => self.venue_spec() == Some(*vn),
                None => self.venue_spec() is None,
            },
    {
        match self {
            SubscribeCommand::Data(cmd) => cmd.venue.as_ref(),
            SubscribeCommand::Instruments(cmd) => Some(&cmd.venue),
            SubscribeCommand::Instrument(cmd) => cmd.venue.as_ref(),
            SubscribeCommand::BookDeltas(cmd) => cmd.venue.as_ref(),
            SubscribeCommand::BookDepth10(cmd) => cmd.venue.as_ref(),
            SubscribeCommand::BookSnapshots(cmd) => cmd.venue.as_ref(),
            SubscribeCommand::Quotes(cmd) => cmd.venue.as_ref(),
            SubscribeCommand::Trades(cmd) => cmd.venue.as_ref(),
            SubscribeCommand::Bars(cmd) => cmd.venue.as_ref(),
            SubscribeCommand::MarkPrices(cmd) => cmd.venue.as_ref(),
            SubscribeCommand::IndexPrices(cmd) => cmd.venue.as_ref(),
            SubscribeCommand::InstrumentStatus(cmd) => cmd.venue.as_ref(),
            SubscribeCommand::InstrumentClose(cmd) => cmd.venue.as_ref(),
        }
    }

    /// The venue the command concerns, if any.
    pub open spec fn venue_spec(&self) -> Option<Venue> {
        match self {
            SubscribeCommand::Data(cmd) => cmd.venue,
            SubscribeCommand::Instruments(cmd) => Some(cmd.venue),
            SubscribeCommand::Instrument(cmd) => cmd.venue,
            SubscribeCommand::BookDeltas(cmd) => cmd.venue,
            SubscribeCommand::BookDepth10(cmd) => cmd.venue,
            SubscribeCommand::BookSnapshots(cmd) => cmd.venue,
            SubscribeCommand::Quotes(cmd) => cmd.venue,
            SubscribeCommand::Trades(cmd) => cmd.venue,
            SubscribeCommand::Bars(cmd) => cmd.venue,
            SubscribeCommand::MarkPrices(cmd) => cmd.venue,
            SubscribeCommand::IndexPrices(cmd) => cmd.venue,
            SubscribeCommand::InstrumentStatus(cmd) => cmd.venue,
            SubscribeCommand::InstrumentClose(cmd) => cmd.venue,
        }
    }

    /// When the command was initialized.
    pub fn ts_init(&self) -> (r: u64)
        ensures
            r == self.ts_init_spec(),
    {
        match self {
            SubscribeCommand::Data(cmd) => cmd.ts_init,
            SubscribeCommand::Instruments(cmd) => cmd.ts_init,
            SubscribeCommand::Instrument(cmd) => cmd.ts_init,
            SubscribeCommand::BookDeltas(cmd) => cmd.ts_init,
            SubscribeCommand::BookDepth10(cmd) => cmd.ts_init,
            SubscribeCommand::BookSnapshots(cmd) => cmd.ts_init,
            SubscribeCommand::Quotes(cmd) => cmd.ts_init,
            SubscribeCommand::Trades(cmd) => cmd.ts_init,
            SubscribeCommand::Bars(cmd) => cmd.ts_init,
            SubscribeCommand::MarkPrices(cmd) => cmd.ts_init,
            SubscribeCommand::IndexPrices(cmd) => cmd.ts_init,
            SubscribeCommand::InstrumentStatus(cmd) => cmd.ts_init,
            SubscribeCommand::InstrumentClose(cmd) => cmd.ts_init,
        }
    }

    /// When the command was initialized.
    pub open spec fn ts_init_spec(&self) -> u64 {
        match self {
            SubscribeCommand::Data(cmd) => cmd.ts_init,
            SubscribeCommand::Instruments(cmd) => cmd.ts_init,
            SubscribeCommand::Instrument(cmd) => cmd.ts_init,
            SubscribeCommand::BookDeltas(cmd) => cmd.ts_init,
            SubscribeCommand::BookDepth10(cmd) => cmd.ts_init,
            SubscribeCommand::BookSnapshots(cmd) => cmd.ts_init,
            SubscribeCommand::Quotes(cmd) => cmd.ts_init,
            SubscribeCommand::Trades(cmd) => cmd.ts_init,
            SubscribeCommand::Bars(cmd) => cmd.ts_init,
            SubscribeCommand::MarkPrices(cmd) => cmd.ts_init,
            SubscribeCommand::IndexPrices(cmd) => cmd.ts_init,
            SubscribeCommand::InstrumentStatus(cmd) => cmd.ts_init,
            SubscribeCommand::InstrumentClose(cmd) => cmd.ts_init,
        }
    }
}

/// Any unsubscription command, by data kind.
pub enum UnsubscribeCommand {
    Data(UnsubscribeData),
    Instruments(UnsubscribeInstruments),
    Instrument(UnsubscribeInstrument),
    BookDeltas(UnsubscribeBookDeltas),
    BookDepth10(UnsubscribeBookDepth10),
    BookSnapshots(UnsubscribeBookSnapshots),
    Quotes(UnsubscribeQuotes),
    Trades(UnsubscribeTrades),
    Bars(UnsubscribeBars),
    MarkPrices(UnsubscribeMarkPrices),
    IndexPrices(UnsubscribeIndexPrices),
    InstrumentStatus(UnsubscribeInstrumentStatus),
    InstrumentClose(UnsubscribeInstrumentClose),
}

impl UnsubscribeCommand {
    /// The unique identifier of the command.
    pub fn command_id(&self) -> (r: Uuid4)
        ensures
            r == self.command_id_spec(),
    {
        match self {
            UnsubscribeCommand::Data(cmd) => cmd.command_id,
            UnsubscribeCommand::Instruments(cmd) => cmd.command_id,
            UnsubscribeCommand::Instrument(cmd) => cmd.command_id,
            UnsubscribeCommand::BookDeltas(cmd) => cmd.command_id,
            UnsubscribeCommand::BookDepth10(cmd) => cmd.command_id,
            UnsubscribeCommand::BookSnapshots(cmd) => cmd.command_id,
            UnsubscribeCommand::Quotes(cmd) => cmd.command_id,
            UnsubscribeCommand::Trades(cmd) => cmd.command_id,
            UnsubscribeCommand::Bars(cmd) => cmd.command_id,
            UnsubscribeCommand::MarkPrices(cmd) => cmd.command_id,
            UnsubscribeCommand::IndexPrices(cmd) => cmd.command_id,
            UnsubscribeCommand::InstrumentStatus(cmd) => cmd.command_id,
            UnsubscribeCommand::InstrumentClose(cmd) => cmd.command_id,
        }
    }

    /// The unique identifier of the command.
    pub open spec fn command_id_spec(&self) -> Uuid4 {
        match self {
            UnsubscribeCommand::Data(cmd) => cmd.command_id,
            UnsubscribeCommand::Instruments(cmd) => cmd.command_id,
            UnsubscribeCommand::Instrument(cmd) => cmd.command_id,
            UnsubscribeCommand::BookDeltas(cmd) => cmd.command_id,
            UnsubscribeCommand::BookDepth10(cmd) => cmd.command_id,
            UnsubscribeCommand::BookSnapshots(cmd) => cmd.command_id,
            UnsubscribeCommand::Quotes(cmd) => cmd.command_id,
            UnsubscribeCommand::Trades(cmd) => cmd.command_id,
            UnsubscribeCommand::Bars(cmd) => cmd.command_id,
            UnsubscribeCommand::MarkPrices(cmd) => cmd.command_id,
            UnsubscribeCommand::IndexPrices(cmd) => cmd.command_id,
            UnsubscribeCommand::InstrumentStatus(cmd) => cmd.command_id,
            UnsubscribeCommand::InstrumentClose(cmd) => cmd.command_id,
        }
    }

    /// The explicit data client the command is routed to, if any.
    pub fn client_id(&self) -> (r: Option<&ClientId>)
        ensures
            match r {
                Some(c) => self.client_id_spec() == Some(*c),
                None => self.client_id_spec() is None,
            },
    {
        match self {
            UnsubscribeCommand::Data(cmd) => cmd.client_id.as_ref(),
            UnsubscribeCommand::Instruments(cmd) => cmd.client_id.as_ref(),
            UnsubscribeCommand::Instrument(cmd) => cmd.client_id.as_ref(),
            UnsubscribeCommand::BookDeltas(cmd) => cmd.client_id.as_ref(),
            UnsubscribeCommand::BookDepth10(cmd) => cmd.client_id.as_ref(),
            UnsubscribeCommand::BookSnapshots(cmd) => cmd.client_id.as_ref(),
            UnsubscribeCommand::Quotes(cmd) => cmd.client_id.as_ref(),
            UnsubscribeCommand::Trades(cmd) => cmd.client_id.as_ref(),
            UnsubscribeCommand::Bars(cmd) => cmd.client_id.as_ref(),
            UnsubscribeCommand::MarkPrices(cmd) => cmd.client_id.as_ref(),
            UnsubscribeCommand::IndexPrices(cmd) => cmd.client_id.as_ref(),
            UnsubscribeCommand::InstrumentStatus(cmd) => cmd.client_id.as_ref(),
            UnsubscribeCommand::InstrumentClose(cmd) => cmd.client_id.as_ref(),
        }
    }

    /// The explicit data client the command is routed to, if any.
    pub open spec fn client_id_spec(&self) -> Option<ClientId> {
        match self {
            UnsubscribeCommand::Data(cmd) => cmd.client_id,
            UnsubscribeCommand::Instruments(cmd) => cmd.client_id,
            UnsubscribeCommand::Instrument(cmd) => cmd.client_id,
            UnsubscribeCommand::BookDeltas(cmd) => cmd.client_id,
            UnsubscribeCommand::BookDepth10(cmd) => cmd.client_id,
            UnsubscribeCommand::BookSnapshots(cmd) => cmd.client_id,
            UnsubscribeCommand::Quotes(cmd) => cmd.client_id,
            UnsubscribeCommand::Trades(cmd) => cmd.client_id,
            UnsubscribeCommand::Bars(cmd) => cmd.client_id,
            UnsubscribeCommand::MarkPrices(cmd) => cmd.client_id,
            UnsubscribeCommand::IndexPrices(cmd) => cmd.client_id,
            UnsubscribeCommand::InstrumentStatus(cmd) => cmd.client_id,
            UnsubscribeCommand::InstrumentClose(cmd) => cmd.client_id,
        }
    }

    /// The venue the command concerns, if any.
    pub fn venue(&self) -> (r: Option<&Venue>)
        ensures
            match r {
                Some(vn) => self.venue_spec() == Some(*vn),
                None => self.venue_spec() is None,
            },
    {
        match self {
            UnsubscribeCommand::Data(cmd) => cmd.venue.as_ref(),
            UnsubscribeCommand::Instruments(cmd) => Some(&cmd.venue),
            UnsubscribeCommand::Instrument(cmd) => cmd.venue.as_ref(),
            UnsubscribeCommand::BookDeltas(cmd) => cmd.venue.as_ref(),
            UnsubscribeCommand::BookDepth10(cmd) => cmd.venue.as_ref(),
            UnsubscribeCommand::BookSnapshots(cmd) => cmd.venue.as_ref(),
            UnsubscribeCommand::Quotes(cmd) => cmd.venue.as_ref(),
            UnsubscribeCommand::Trades(cmd) => cmd.venue.as_ref(),
            UnsubscribeCommand::Bars(cmd) => cmd.venue.as_ref(),
            UnsubscribeCommand::MarkPrices(cmd) => cmd.venue.as_ref(),
            UnsubscribeCommand::IndexPrices(cmd) => cmd.venue.as_ref(),
            UnsubscribeCommand::InstrumentStatus(cmd) => cmd.venue.as_ref(),
            UnsubscribeCommand::InstrumentClose(cmd) => cmd.venue.as_ref(),
        }
    }

    /// The venue the command concerns, if any.
    pub open spec fn venue_spec(&self) -> Option<Venue> {
        match self {
            UnsubscribeCommand::Data(cmd) => cmd.venue,
            UnsubscribeCommand::Instruments(cmd) => Some(cmd.venue),
            UnsubscribeCommand::Instrument(cmd) => cmd.venue,
            UnsubscribeCommand::BookDeltas(cmd) => cmd.venue,
            UnsubscribeCommand::BookDepth10(cmd) => cmd.venue,
            UnsubscribeCommand::BookSnapshots(cmd) => cmd.venue,
            UnsubscribeCommand::Quotes(cmd) => cmd.venue,
            UnsubscribeCommand::Trades(cmd) => cmd.venue,
            UnsubscribeCommand::Bars(cmd) => cmd.venue,
            UnsubscribeCommand::MarkPrices(cmd) => cmd.venue,
            UnsubscribeCommand::IndexPrices(cmd) => cmd.venue,
            UnsubscribeCommand::InstrumentStatus(cmd) => cmd.venue,
            UnsubscribeCommand::InstrumentClose(cmd) => cmd.venue,
        }
    }

    /// When the command was initialized.
    pub fn ts_init(&self) -> (r: u64)
        ensures
            r == self.ts_init_spec(),
    {
        match self {
            UnsubscribeCommand::Data(cmd) => cmd.ts_init,
            UnsubscribeCommand::Instruments(cmd) => cmd.ts_init,
            UnsubscribeCommand::Instrument(cmd) => cmd.ts_init,
            UnsubscribeCommand::BookDeltas(cmd) => cmd.ts_init,
            UnsubscribeCommand::BookDepth10(cmd) => cmd.ts_init,
            UnsubscribeCommand::BookSnapshots(cmd) => cmd.ts_init,
            UnsubscribeCommand::Quotes(cmd) => cmd.ts_init,
            UnsubscribeCommand::Trades(cmd) => cmd.ts_init,
            UnsubscribeCommand::Bars(cmd) => cmd.ts_init,
            UnsubscribeCommand::MarkPrices(cmd) => cmd.ts_init,
            UnsubscribeCommand::IndexPrices(cmd) => cmd.ts_init,
            UnsubscribeCommand::InstrumentStatus(cmd) => cmd.ts_init,
            UnsubscribeCommand::InstrumentClose(cmd) => cmd.ts_init,
        }
    }

    /// When the command was initialized.
    pub open spec fn ts_init_spec(&self) -> u64 {
        match self {
            UnsubscribeCommand::Data(cmd) => cmd.ts_init,
            UnsubscribeCommand::Instruments(cmd) => cmd.ts_init,
            UnsubscribeCommand::Instrument(cmd) => cmd.ts_init,
            UnsubscribeCommand::BookDeltas(cmd) => cmd.ts_init,
            UnsubscribeCommand::BookDepth10(cmd) => cmd.ts_init,
            UnsubscribeCommand::BookSnapshots(cmd) => cmd.ts_init,
            UnsubscribeCommand::Quotes(cmd) => cmd.ts_init,
            UnsubscribeCommand::Trades(cmd) => cmd.ts_init,
            UnsubscribeCommand::Bars(cmd) => cmd.ts_init,
            UnsubscribeCommand::MarkPrices(cmd) => cmd.ts_init,
            UnsubscribeCommand::IndexPrices(cmd) => cmd.ts_init,
            UnsubscribeCommand::InstrumentStatus(cmd) => cmd.ts_init,
            UnsubscribeCommand::InstrumentClose(cmd) => cmd.ts_init,
        }
    }
}

/// A request for custom historical data.
pub struct RequestData {
    pub client_id: ClientId,
    pub data_type: DataType,
    pub request_id: Uuid4,
    pub ts_init: u64,
    pub params: Option<Vec<(String, String)>>,
}

/// A request for one instrument's definition.
pub struct RequestInstrument {
    pub instrument_id: InstrumentId,
    pub start: Option<u64>,
    pub end: Option<u64>,
    pub client_id: Option<ClientId>,
    pub request_id: Uuid4,
    pub ts_init: u64,
    pub params: Option<Vec<(String, String)>>,
}

impl RequestInstrument {
    /// Builds the request.
    pub fn new(
        instrument_id: InstrumentId,
        start: Option<u64>,
        end: Option<u64>,
        client_id: Option<ClientId>,
        request_id: Uuid4,
        ts_init: u64,
        params: Option<Vec<(String, String)>>,
    ) -> (r: Self)
        ensures
            r.instrument_id == instrument_id,
            r.start == start,
            r.end == end,
            r.client_id == client_id,
            r.request_id == request_id,
            r.ts_init == ts_init,
            r.params == params,
    {
        RequestInstrument { instrument_id, start, end, client_id, request_id, ts_init, params }
    }
}

/// A request for the instrument definitions of a venue (or of every venue a
/// given client serves).
pub struct RequestInstruments {
    pub start: Option<u64>,
    pub end: Option<u64>,
    pub client_id: Option<ClientId>,
    pub venue: Option<Venue>,
    pub request_id: Uuid4,
    pub ts_init: u64,
    pub params: Option<Vec<(String, String)>>,
}

impl RequestInstruments {
    /// Builds the request; `Ok` exactly when a client id or a venue is given.
    pub fn new_checked(
        start: Option<u64>,
        end: Option<u64>,
        client_id: Option<ClientId>,
        venue: Option<Venue>,
        request_id: Uuid4,
        ts_init: u64,
        params: Option<Vec<(String, String)>>,
    ) -> (r: Result<Self, CommandError>)
        ensures
            match r {
                Ok(c) => {
                    &&& (client_id is Some || venue is Some)
                    &&& c.start == start
                    &&& c.end == end
                    &&& c.client_id == client_id
                    &&& c.venue == venue
                    &&& c.request_id == request_id
                    &&& c.ts_init == ts_init
                    &&& c.params == params
                },
                Err(e) => {
                    &&& e == CommandError::MissingClientIdAndVenue
                    &&& (client_id is None)
                    &&& (venue is None)
                },
            },
    {
        if client_id.is_none() && venue.is_none() {
            return Err(CommandError::MissingClientIdAndVenue);
        }
        Ok(RequestInstruments { start, end, client_id, venue, request_id, ts_init, params })
    }

    /// Builds the request; a client id or a venue must be given.
    pub fn new(
        start: Option<u64>,
        end: Option<u64>,
        client_id: Option<ClientId>,
        venue: Option<Venue>,
        request_id: Uuid4,
        ts_init: u64,
        params: Option<Vec<(String, String)>>,
    ) -> (r: Self)
        requires
            client_id is Some || venue is Some,
        ensures
            r.start == start,
            r.end == end,
            r.client_id == client_id,
            r.venue == venue,
            r.request_id == request_id,
            r.ts_init == ts_init,
            r.params == params,
    {
        RequestInstruments { start, end, client_id, venue, request_id, ts_init, params }
    }
}

/// A request for a snapshot of an instrument's order book.
pub struct RequestBookSnapshot {
    pub instrument_id: InstrumentId,
    pub depth: Option<usize>,
    pub client_id: Option<ClientId>,
    pub request_id: Uuid4,
    pub ts_init: u64,
    pub params: Option<Vec<(String, String)>>,
}

impl RequestBookSnapshot {
    /// Builds the request.
    pub fn new(
        instrument_id: InstrumentId,
        depth: Option<usize>,
        client_id: Option<ClientId>,
        request_id: Uuid4,
        ts_init: u64,
        params: Option<Vec<(String, String)>>,
    ) -> (r: Self)
        requires
            depth matches Some(d) ==> d > 0,
        ensures
            r.instrument_id == instrument_id,
            r.depth == depth,
            r.client_id == client_id,
            r.request_id == request_id,
            r.ts_init == ts_init,
            r.params == params,
    {
        RequestBookSnapshot { instrument_id, depth, client_id, request_id, ts_init, params }
    }
}

/// A request for historical quotes.
pub struct RequestQuotes {
    pub instrument_id: InstrumentId,
    pub start: Option<u64>,
    pub end: Option<u64>,
    pub limit: Option<usize>,
    pub client_id: Option<ClientId>,
    pub request_id: Uuid4,
    pub ts_init: u64,
    pub params: Option<Vec<(String, String)>>,
}

impl RequestQuotes {
    /// Builds the request.
    pub fn new(
        instrument_id: InstrumentId,
        start: Option<u64>,
        end: Option<u64>,
        limit: Option<usize>,
        client_id: Option<ClientId>,
        request_id: Uuid4,
        ts_init: u64,
        params: Option<Vec<(String, String)>>,
    ) -> (r: Self)
        requires
            limit matches Some(l) ==> l > 0,
        ensures
            r.instrument_id == instrument_id,
            r.start == start,
            r.end == end,
            r.limit == limit,
            r.client_id == client_id,
            r.request_id == request_id,
            r.ts_init == ts_init,
            r.params == params,
    {
        RequestQuotes { instrument_id, start, end, limit, client_id, request_id, ts_init, params }
    }
}

/// A request for historical trades.
pub struct RequestTrades {
    pub instrument_id: InstrumentId,
    pub start: Option<u64>,
    pub end: Option<u64>,
    pub limit: Option<usize>,
    pub client_id: Option<ClientId>,
    pub request_id: Uuid4,
    pub ts_init: u64,
    pub params: Option<Vec<(String, String)>>,
}

impl RequestTrades {
    /// Builds the request.
    pub fn new(
        instrument_id: InstrumentId,
        start: Option<u64>,
        end: Option<u64>,
        limit: Option<usize>,
        client_id: Option<ClientId>,
        request_id: Uuid4,
        ts_init: u64,
        params: Option<Vec<(String, String)>>,
    ) -> (r: Self)
        requires
            limit matches Some(l) ==> l > 0,
        ensures
            r.instrument_id == instrument_id,
            r.start == start,
            r.end == end,
            r.limit == limit,
            r.client_id == client_id,
            r.request_id == request_id,
            r.ts_init == ts_init,
            r.params == params,
    {
        RequestTrades { instrument_id, start, end, limit, client_id, request_id, ts_init, params }
    }
}

/// A request for historical bars.
pub struct RequestBars {
    pub bar_type: BarType,
    pub start: Option<u64>,
    pub end: Option<u64>,
    pub limit: Option<usize>,
    pub client_id: Option<ClientId>,
    pub request_id: Uuid4,
    pub ts_init: u64,
    pub params: Option<Vec<(String, String)>>,
}

impl RequestBars {
    /// Builds the request.
    pub fn new(
        bar_type: BarType,
        start: Option<u64>,
        end: Option<u64>,
        limit: Option<usize>,
        client_id: Option<ClientId>,
        request_id: Uuid4,
        ts_init: u64,
        params: Option<Vec<(String, String)>>,
    ) -> (r: Self)
        requires
            limit matches Some(l) ==> l > 0,
        ensures
            r.bar_type == bar_type,
            r.start == start,
            r.end == end,
            r.limit == limit,
            r.client_id == client_id,
            r.request_id == request_id,
            r.ts_init == ts_init,
            r.params == params,
    {
        RequestBars { bar_type, start, end, limit, client_id, request_id, ts_init, params }
    }
}

/// Any data request, by kind.
pub enum RequestCommand {
    Data(RequestData),
    Instrument(RequestInstrument),
    Instruments(RequestInstruments),
    BookSnapshot(RequestBookSnapshot),
    Quotes(RequestQuotes),
    Trades(RequestTrades),
    Bars(RequestBars),
}

impl RequestCommand {
    /// The correlation identifier of the request.
    pub open spec fn request_id_spec(&self) -> Uuid4 {
        match self {
            RequestCommand::Data(cmd) => cmd.request_id,
            RequestCommand::Instrument(cmd) => cmd.request_id,
            RequestCommand::Instruments(cmd) => cmd.request_id,
            RequestCommand::BookSnapshot(cmd) => cmd.request_id,
            RequestCommand::Quotes(cmd) => cmd.request_id,
            RequestCommand::Trades(cmd) => cmd.request_id,
            RequestCommand::Bars(cmd) => cmd.request_id,
        }
    }

    /// The correlation identifier of the request.
    pub fn request_id(&self) -> (r: Uuid4)
        ensures
            r == self.request_id_spec(),
    {
        match self {
            RequestCommand::Data(cmd) => cmd.request_id,
            RequestCommand::Instrument(cmd) => cmd.request_id,
            RequestCommand::Instruments(cmd) => cmd.request_id,
            RequestCommand::BookSnapshot(cmd) => cmd.request_id,
            RequestCommand::Quotes(cmd) => cmd.request_id,
            RequestCommand::Trades(cmd) => cmd.request_id,
            RequestCommand::Bars(cmd) => cmd.request_id,
        }
    }

    /// The explicit data client the request is routed to, if any.
    pub open spec fn client_id_spec(&self) -> Option<ClientId> {
        match self {
            RequestCommand::Data(cmd) => Some(cmd.client_id),
            RequestCommand::Instrument(cmd) => cmd.client_id,
            RequestCommand::Instruments(cmd) => cmd.client_id,
            RequestCommand::BookSnapshot(cmd) => cmd.client_id,
            RequestCommand::Quotes(cmd) => cmd.client_id,
            RequestCommand::Trades(cmd) => cmd.client_id,
            RequestCommand::Bars(cmd) => cmd.client_id,
        }
    }

    /// The explicit data client the request is routed to, if any.
    pub fn client_id(&self) -> (r: Option<&ClientId>)
        ensures
            match r {
                Some(c) => self.client_id_spec() == Some(*c),
                None => self.client_id_spec() is None,
            },
    {
        match self {
            RequestCommand::Data(cmd) => Some(&cmd.client_id),
            RequestCommand::Instrument(cmd) => cmd.client_id.as_ref(),
            RequestCommand::Instruments(cmd) => cmd.client_id.as_ref(),
            RequestCommand::BookSnapshot(cmd) => cmd.client_id.as_ref(),
            RequestCommand::Quotes(cmd) => cmd.client_id.as_ref(),
            RequestCommand::Trades(cmd) => cmd.client_id.as_ref(),
            RequestCommand::Bars(cmd) => cmd.client_id.as_ref(),
        }
    }

    /// The venue the request concerns, if one can be named.
    pub open spec fn venue_spec(&self) -> Option<Venue> {
        match self {
            RequestCommand::Data(_) => None,
            RequestCommand::Instrument(cmd) => Some(cmd.instrument_id.venue),
            RequestCommand::Instruments(cmd) => cmd.venue,
            RequestCommand::BookSnapshot(cmd) => Some(cmd.instrument_id.venue),
            RequestCommand::Quotes(cmd) => Some(cmd.instrument_id.venue),
            RequestCommand::Trades(cmd) => Some(cmd.instrument_id.venue),
            RequestCommand::Bars(cmd) => Some(cmd.bar_type.instrument_id.venue),
        }
    }

    /// The venue the request concerns, if one can be named.
    pub fn venue(&self) -> (r: Option<&Venue>)
        ensures
            match r {
                Some(vn) => self.venue_spec() == Some(*vn),
                None => self.venue_spec() is None,
            },
    {
        match self {
            RequestCommand::Data(_) => None,
            RequestCommand::Instrument(cmd) => Some(&cmd.instrument_id.venue),
            RequestCommand::Instruments(cmd) => cmd.venue.as_ref(),
            RequestCommand::BookSnapshot(cmd) => Some(&cmd.instrument_id.venue),
            RequestCommand::Quotes(cmd) => Some(&cmd.instrument_id.venue),
            RequestCommand::Trades(cmd) => Some(&cmd.instrument_id.venue),
            RequestCommand::Bars(cmd) => Some(&cmd.bar_type.instrument_id.venue),
        }
    }

    /// When the request was initialized.
    pub open spec fn ts_init_spec(&self) -> u64 {
        match self {
            RequestCommand::Data(cmd) => cmd.ts_init,
            RequestCommand::Instrument(cmd) => cmd.ts_init,
            RequestCommand::Instruments(cmd) => cmd.ts_init,
            RequestCommand::BookSnapshot(cmd) => cmd.ts_init,
            RequestCommand::Quotes(cmd) => cmd.ts_init,
            RequestCommand::Trades(cmd) => cmd.ts_init,
            RequestCommand::Bars(cmd) => cmd.ts_init,
        }
    }

    /// When the request was initialized.
    pub fn ts_init(&self) -> (r: u64)
        ensures
            r == self.ts_init_spec(),
    {
        match self {
            RequestCommand::Data(cmd) => cmd.ts_init,
            RequestCommand::Instrument(cmd) => cmd.ts_init,
            RequestCommand::Instruments(cmd) => cmd.ts_init,
            RequestCommand::BookSnapshot(cmd) => cmd.ts_init,
            RequestCommand::Quotes(cmd) => cmd.ts_init,
            RequestCommand::Trades(cmd) => cmd.ts_init,
            RequestCommand::Bars(cmd) => cmd.ts_init,
        }
    }
}

/// A command to subscribe to new blocks of a chain.
pub struct SubscribeBlocks {
    pub chain: Blockchain,
    pub client_id: Option<ClientId>,
    pub command_id: Uuid4,
    pub ts_init: u64,
    pub params: Option<Vec<(String, String)>>,
}

impl SubscribeBlocks {
    /// Builds the command.
    pub fn new(
        chain: Blockchain,
        client_id: Option<ClientId>,
        command_id: Uuid4,
        ts_init: u64,
        params: Option<Vec<(String, String)>>,
    ) -> (r: Self)
        ensures
            r.chain == chain,
            r.client_id == client_id,
            r.command_id == command_id,
            r.ts_init == ts_init,
            r.params == params,
    {
        SubscribeBlocks { chain, client_id, command_id, ts_init, params }
    }
}

/// A command to subscribe to a pool's definition updates.
pub struct SubscribePool {
    pub instrument_id: InstrumentId,
    pub client_id: Option<ClientId>,
    pub command_id: Uuid4,
    pub ts_init: u64,
    pub params: Option<Vec<(String, String)>>,
}

impl SubscribePool {
    /// Builds the command.
    pub fn new(
        instrument_id: InstrumentId,
        client_id: Option<ClientId>,
        command_id: Uuid4,
        ts_init: u64,
        params: Option<Vec<(String, String)>>,
    ) -> (r: Self)
        ensures
            r.instrument_id == instrument_id,
            r.client_id == client_id,
            r.command_id == command_id,
            r.ts_init == ts_init,
            r.params == params,
    {
        SubscribePool { instrument_id, client_id, command_id, ts_init, params }
    }
}

/// A command to subscribe to swaps against a pool.
pub struct SubscribePoolSwaps {
    pub instrument_id: InstrumentId,
    pub client_id: Option<ClientId>,
    pub command_id: Uuid4,
    pub ts_init: u64,
    pub params: Option<Vec<(String, String)>>,
}

impl SubscribePoolSwaps {
    /// Builds the command.
    pub fn new(
        instrument_id: InstrumentId,
        client_id: Option<ClientId>,
        command_id: Uuid4,
        ts_init: u64,
        params: Option<Vec<(String, String)>>,
    ) -> (r: Self)
        ensures
            r.instrument_id == instrument_id,
            r.client_id == client_id,
            r.command_id == command_id,
            r.ts_init == ts_init,
            r.params == params,
    {
        SubscribePoolSwaps { instrument_id, client_id, command_id, ts_init, params }
    }
}

/// A command to subscribe to liquidity updates of a pool.
pub struct SubscribePoolLiquidityUpdates {
    pub instrument_id: InstrumentId,
    pub client_id: Option<ClientId>,
    pub command_id: Uuid4,
    pub ts_init: u64,
    pub params: Option<Vec<(String, String)>>,
}

impl SubscribePoolLiquidityUpdates {
    /// Builds the command.
    pub fn new(
        instrument_id: InstrumentId,
        client_id: Option<ClientId>,
        command_id: Uuid4,
        ts_init: u64,
        params: Option<Vec<(String, String)>>,
    ) -> (r: Self)
        ensures
            r.instrument_id == instrument_id,
            r.client_id == client_id,
            r.command_id == command_id,
            r.ts_init == ts_init,
            r.params == params,
    {
        SubscribePoolLiquidityUpdates { instrument_id, client_id, command_id, ts_init, params }
    }
}

/// A command to unsubscribe from new blocks of a chain.
pub struct UnsubscribeBlocks {
    pub chain: Blockchain,
    pub client_id: Option<ClientId>,
    pub command_id: Uuid4,
    pub ts_init: u64,
    pub params: Option<Vec<(String, String)>>,
}

impl UnsubscribeBlocks {
    /// Builds the command.
    pub fn new(
        chain: Blockchain,
        client_id: Option<ClientId>,
        command_id: Uuid4,
        ts_init: u64,
        params: Option<Vec<(String, String)>>,
    ) -> (r: Self)
        ensures
            r.chain == chain,
            r.client_id == client_id,
            r.command_id == command_id,
            r.ts_init == ts_init,
            r.params == params,
    {
        UnsubscribeBlocks { chain, client_id, command_id, ts_init, params }
    }
}

/// A command to unsubscribe from a pool's definition updates.
pub struct UnsubscribePool {
    pub instrument_id: InstrumentId,
    pub client_id: Option<ClientId>,
    pub command_id: Uuid4,
    pub ts_init: u64,
    pub params: Option<Vec<(String, String)>>,
}

impl UnsubscribePool {
    /// Builds the command.
    pub fn new(
        instrument_id: InstrumentId,
        client_id: Option<ClientId>,
        command_id: Uuid4,
        ts_init: u64,
        params: Option<Vec<(String, String)>>,
    ) -> (r: Self)
        ensures
            r.instrument_id == instrument_id,
            r.client_id == client_id,
            r.command_id == command_id,
            r.ts_init == ts_init,
            r.params == params,
    {
        UnsubscribePool { instrument_id, client_id, command_id, ts_init, params }
    }
}

/// A command to unsubscribe from swaps against a pool.
pub struct UnsubscribePoolSwaps {
    pub instrument_id: InstrumentId,
    pub client_id: Option<ClientId>,
    pub command_id: Uuid4,
    pub ts_init: u64,
    pub params: Option<Vec<(String, String)>>,
}

impl UnsubscribePoolSwaps {
    /// Builds the command.
    pub fn new(
        instrument_id: InstrumentId,
        client_id: Option<ClientId>,
        command_id: Uuid4,
        ts_init: u64,
        params: Option<Vec<(String, String)>>,
    ) -> (r: Self)
        ensures
            r.instrument_id == instrument_id,
            r.client_id == client_id,
            r.command_id == command_id,
            r.ts_init == ts_init,
            r.params == params,
    {
        UnsubscribePoolSwaps { instrument_id, client_id, command_id, ts_init, params }
    }
}

/// A command to unsubscribe from liquidity updates of a pool.
pub struct UnsubscribePoolLiquidityUpdates {
    pub instrument_id: InstrumentId,
    pub client_id: Option<ClientId>,
    pub command_id: Uuid4,
    pub ts_init: u64,
    pub params: Option<Vec<(String, String)>>,
}

impl UnsubscribePoolLiquidityUpdates {
    /// Builds the command.
    pub fn new(
        instrument_id: InstrumentId,
        client_id: Option<ClientId>,
        command_id: Uuid4,
        ts_init: u64,
        params: Option<Vec<(String, String)>>,
    ) -> (r: Self)
        ensures
            r.instrument_id == instrument_id,
            r.client_id == client_id,
            r.command_id == command_id,
            r.ts_init == ts_init,
            r.params == params,
    {
        UnsubscribePoolLiquidityUpdates { instrument_id, client_id, command_id, ts_init, params }
    }
}

/// Any chain-data subscription command, by kind.
pub enum DefiSubscribeCommand {
    Blocks(SubscribeBlocks),
    Pool(SubscribePool),
    PoolSwaps(SubscribePoolSwaps),
    PoolLiquidityUpdates(SubscribePoolLiquidityUpdates),
}

/// Any chain-data unsubscription command, by kind.
pub enum DefiUnsubscribeCommand {
    Blocks(UnsubscribeBlocks),
    Pool(UnsubscribePool),
    PoolSwaps(UnsubscribePoolSwaps),
    PoolLiquidityUpdates(UnsubscribePoolLiquidityUpdates),
}

/// Any command of the data subsystem.
pub enum DataCommand {
    Request(RequestCommand),
    Subscribe(SubscribeCommand),
    Unsubscribe(UnsubscribeCommand),
    DefiSubscribe(DefiSubscribeCommand),
    DefiUnsubscribe(DefiUnsubscribeCommand),
}

/// A command asking the whole system for an orderly shutdown.
pub struct ShutdownSystem {
    pub trader_id: TraderId,
    pub component_id: String,
    pub reason: Option<String>,
    pub command_id: Uuid4,
    pub ts_init: u64,
}

} // verus!
