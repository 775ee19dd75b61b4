//! The responses a data client publishes for a request, each tagged with the
//! correlation id of the request it answers.

use vstd::prelude::*;
use crate::ids::{BarType, ClientId, DataType, InstrumentId, Venue};
use crate::market::{Bar, BookSnapshot, Instrument, QuoteTick, TradeTick};
use crate::uuid4::Uuid4;

verus! {

/// A response carrying custom data, as opaque bytes the requester decodes.
pub struct CustomDataResponse {
    pub correlation_id: Uuid4,
    pub client_id: ClientId,
    pub venue: Option<Venue>,
    pub data_type: DataType,
    pub data: Vec<u8>,
    pub ts_init: u64,
    pub params: Option<Vec<(String, String)>>,
}

impl CustomDataResponse {
    /// Builds the response.
    pub fn new(
        correlation_id: Uuid4,
        client_id: ClientId,
        venue: Option<Venue>,
        data_type: DataType,
        data: Vec<u8>,
        ts_init: u64,
        params: Option<Vec<(String, String)>>,
    ) -> (r: Self)
        ensures
            r.correlation_id == correlation_id,
            r.client_id == client_id,
            r.venue == venue,
            r.data_type == data_type,
            r.data == data,
            r.ts_init == ts_init,
            r.params == params,
    {
        CustomDataResponse { correlation_id, client_id, venue, data_type, data, ts_init, params }
    }
}

/// A response carrying one instrument definition.
pub struct InstrumentResponse {
    pub correlation_id: Uuid4,
    pub client_id: ClientId,
    pub instrument_id: InstrumentId,
    pub data: Instrument,
    pub ts_init: u64,
    pub params: Option<Vec<(String, String)>>,
}

impl InstrumentResponse {
    /// Builds the response.
    pub fn new(
        correlation_id: Uuid4,
        client_id: ClientId,
        instrument_id: InstrumentId,
        data: Instrument,
        ts_init: u64,
        params: Option<Vec<(String, String)>>,
    ) -> (r: Self)
        ensures
            r.correlation_id == correlation_id,
            r.client_id == client_id,
            r.instrument_id == instrument_id,
            r.data == data,
            r.ts_init == ts_init,
            r.params == params,
    {
        InstrumentResponse { correlation_id, client_id, instrument_id, data, ts_init, params }
    }
}

/// A response carrying instrument definitions for a venue.
pub struct InstrumentsResponse {
    pub correlation_id: Uuid4,
    pub client_id: ClientId,
    pub venue: Venue,
    pub data: Vec<Instrument>,
    pub ts_init: u64,
    pub params: Option<Vec<(String, String)>>,
}

impl InstrumentsResponse {
    /// Builds the response.
    pub fn new(
        correlation_id: Uuid4,
        client_id: ClientId,
        venue: Venue,
        data: Vec<Instrument>,
        ts_init: u64,
        params: Option<Vec<(String, String)>>,
    ) -> (r: Self)
        ensures
            r.correlation_id == correlation_id,
            r.client_id == client_id,
            r.venue == venue,
            r.data == data,
            r.ts_init == ts_init,
            r.params == params,
    {
        InstrumentsResponse { correlation_id, client_id, venue, data, ts_init, params }
    }
}

/// A response carrying a book snapshot.
pub struct BookResponse {
    pub correlation_id: Uuid4,
    pub client_id: ClientId,
    pub instrument_id: InstrumentId,
    pub data: BookSnapshot,
    pub ts_init: u64,
    pub params: Option<Vec<(String, String)>>,
}

impl BookResponse {
    /// Builds the response.
    pub fn new(
        correlation_id: Uuid4,
        client_id: ClientId,
        instrument_id: InstrumentId,
        data: BookSnapshot,
        ts_init: u64,
        params: Option<Vec<(String, String)>>,
    ) -> (r: Self)
        ensures
            r.correlation_id == correlation_id,
            r.client_id == client_id,
            r.instrument_id == instrument_id,
            r.data == data,
            r.ts_init == ts_init,
            r.params == params,
    {
        BookResponse { correlation_id, client_id, instrument_id, data, ts_init, params }
    }
}

/// A response carrying historical quotes.
pub struct QuotesResponse {
    pub correlation_id: Uuid4,
    pub client_id: ClientId,
    pub instrument_id: InstrumentId,
    pub data: Vec<QuoteTick>,
    pub ts_init: u64,
    pub params: Option<Vec<(String, String)>>,
}

impl QuotesResponse {
    /// Builds the response.
    pub fn new(
        correlation_id: Uuid4,
        client_id: ClientId,
        instrument_id: InstrumentId,
        data: Vec<QuoteTick>,
        ts_init: u64,
        params: Option<Vec<(String, String)>>,
    ) -> (r: Self)
        ensures
            r.correlation_id == correlation_id,
            r.client_id == client_id,
            r.instrument_id == instrument_id,
            r.data == data,
            r.ts_init == ts_init,
            r.params == params,
    {
        QuotesResponse { correlation_id, client_id, instrument_id, data, ts_init, params }
    }
}

/// A response carrying historical trades.
pub struct TradesResponse {
    pub correlation_id: Uuid4,
    pub client_id: ClientId,
    pub instrument_id: InstrumentId,
    pub data: Vec<TradeTick>,
    pub ts_init: u64,
    pub params: Option<Vec<(String, String)>>,
}

impl TradesResponse {
    /// Builds the response.
    pub fn new(
        correlation_id: Uuid4,
        client_id: ClientId,
        instrument_id: InstrumentId,
        data: Vec<TradeTick>,
        ts_init: u64,
        params: Option<Vec<(String, String)>>,
    ) -> (r: Self)
        ensures
            r.correlation_id == correlation_id,
            r.client_id == client_id,
            r.instrument_id == instrument_id,
            r.data == data,
            r.ts_init == ts_init,
            r.params == params,
    {
        TradesResponse { correlation_id, client_id, instrument_id, data, ts_init, params }
    }
}

/// A response carrying historical bars.
pub struct BarsResponse {
    pub correlation_id: Uuid4,
    pub client_id: ClientId,
    pub bar_type: BarType,
    pub data: Vec<Bar>,
    pub ts_init: u64,
    pub params: Option<Vec<(String, String)>>,
}

impl BarsResponse {
    /// Builds the response.
    pub fn new(
        correlation_id: Uuid4,
        client_id: ClientId,
        bar_type: BarType,
        data: Vec<Bar>,
        ts_init: u64,
        params: Option<Vec<(String, String)>>,
    ) -> (r: Self)
        ensures
            r.correlation_id == correlation_id,
            r.client_id == client_id,
            r.bar_type == bar_type,
            r.data == data,
            r.ts_init == ts_init,
            r.params == params,
    {
        BarsResponse { correlation_id, client_id, bar_type, data, ts_init, params }
    }
}

/// Any data response, by kind.
pub enum DataResponse {
    Data(CustomDataResponse),
    Instrument(InstrumentResponse),
    Instruments(InstrumentsResponse),
    Book(BookResponse),
    Quotes(QuotesResponse),
    Trades(TradesResponse),
    Bars(BarsResponse),
}

impl DataResponse {
    /// The correlation id of the request this response answers.
    pub open spec fn correlation_id_spec(&self) -> Uuid4 {
        match self {
            DataResponse::Data(resp) => resp.correlation_id,
            DataResponse::Instrument(resp) => resp.correlation_id,
            DataResponse::Instruments(resp) => resp.correlation_id,
            DataResponse::Book(resp) => resp.correlation_id,
            DataResponse::Quotes(resp) => resp.correlation_id,
            DataResponse::Trades(resp) => resp.correlation_id,
            DataResponse::Bars(resp) => resp.correlation_id,
        }
    }

    /// The correlation id of the request this response answers.
    pub fn correlation_id(&self) -> (r: Uuid4)
        ensures
            r == self.correlation_id_spec(),
    {
        match self {
            DataResponse::Data(resp) => resp.correlation_id,
            DataResponse::Instrument(resp) => resp.correlation_id,
            DataResponse::Instruments(resp) => resp.correlation_id,
            DataResponse::Book(resp) => resp.correlation_id,
            DataResponse::Quotes(resp) => resp.correlation_id,
            DataResponse::Trades(resp) => resp.correlation_id,
            DataResponse::Bars(resp) => resp.correlation_id,
        }
    }
}

} // verus!
