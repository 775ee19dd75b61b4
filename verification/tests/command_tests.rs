use tradecore::enums::BookType;
use tradecore::ids::{BarType, ClientId, DataType, InstrumentId, Symbol, Venue};
use tradecore::messages::{
    CommandError, RequestInstruments, SubscribeBookDeltas, SubscribeCommand, SubscribeData,
    SubscribeQuotes, UnsubscribeBars, UnsubscribeQuotes,
};
use tradecore::uuid4::Uuid4;

fn instrument_id() -> InstrumentId {
    InstrumentId::new(Symbol::new("ESZ24".to_string()), Venue::new("XCME".to_string()))
}

#[test]
fn subscribe_quotes_needs_client_or_venue() {
    let r = SubscribeQuotes::new_checked(instrument_id(), None, None, Uuid4::new(1), 0, None);
    assert_eq!(r.err(), Some(CommandError::MissingClientIdAndVenue));

    let ok = SubscribeQuotes::new_checked(
        instrument_id(),
        None,
        Some(Venue::new("XCME".to_string())),
        Uuid4::new(1),
        7,
        None,
    )
    .unwrap();
    assert_eq!(ok.ts_init, 7);
    assert_eq!(ok.venue.as_ref().unwrap().as_str(), "XCME");
}

#[test]
fn subscribe_data_needs_client_or_venue() {
    let r = SubscribeData::new_checked(
        None,
        None,
        DataType::new("ExampleDataType".to_string()),
        Uuid4::new(2),
        0,
        None,
    );
    assert_eq!(r.err(), Some(CommandError::MissingClientIdAndVenue));

    let ok = SubscribeData::new_checked(
        Some(ClientId::new("FEED".to_string())),
        None,
        DataType::new("ExampleDataType".to_string()),
        Uuid4::new(2),
        0,
        None,
    );
    assert!(ok.is_ok());
}

#[test]
fn subscribe_book_deltas_needs_client_or_venue() {
    let r = SubscribeBookDeltas::new_checked(
        instrument_id(),
        BookType::L2Mbp,
        None,
        None,
        None,
        true,
        Uuid4::new(3),
        0,
        None,
    );
    assert_eq!(r.err(), Some(CommandError::MissingClientIdAndVenue));
}

#[test]
fn unsubscribe_commands_need_client_or_venue() {
    let r = UnsubscribeQuotes::new_checked(instrument_id(), None, None, Uuid4::new(4), 0, None);
    assert_eq!(r.err(), Some(CommandError::MissingClientIdAndVenue));

    let bar_type = BarType::new(instrument_id(), "1-MINUTE-LAST-INTERNAL".to_string());
    let r = UnsubscribeBars::new_checked(bar_type, None, None, Uuid4::new(5), 0, None);
    assert_eq!(r.err(), Some(CommandError::MissingClientIdAndVenue));
}

#[test]
fn request_instruments_needs_client_or_venue() {
    let r = RequestInstruments::new_checked(None, None, None, None, Uuid4::new(6), 0, None);
    assert_eq!(r.err(), Some(CommandError::MissingClientIdAndVenue));

    let ok = RequestInstruments::new_checked(
        None,
        None,
        None,
        Some(Venue::new("XCME".to_string())),
        Uuid4::new(6),
        0,
        None,
    );
    assert!(ok.is_ok());
}

#[test]
fn subscribe_command_accessors() {
    let cmd = SubscribeCommand::Quotes(
        SubscribeQuotes::new_checked(
            instrument_id(),
            Some(ClientId::new("FEED".to_string())),
            Some(Venue::new("XCME".to_string())),
            Uuid4::new(9),
            42,
            None,
        )
        .unwrap(),
    );
    assert_eq!(cmd.command_id(), Uuid4::new(9));
    assert_eq!(cmd.ts_init(), 42);
    assert_eq!(cmd.client_id().unwrap().as_str(), "FEED");
    assert_eq!(cmd.venue().unwrap().as_str(), "XCME");
}
