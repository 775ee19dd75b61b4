//! Identifier types for traders, strategies, actors, venues, instruments and
//! orders. Each identifier wraps a plain string; its view is the character
//! sequence, which the contracts of the bus, switchboard and actor speak of.

use vstd::prelude::*;

verus! {

/// A trader identifier.
pub struct TraderId {
    pub value: String,
}

impl View for TraderId {
    type V = Seq<char>;

    open spec fn view(&self) -> Seq<char> {
        self.value@
    }
}

impl TraderId {
    pub fn new(value: String) -> (r: Self)
        ensures
            r@ == value@,
    {
        TraderId { value }
    }

    pub fn as_str(&self) -> (r: &str)
        ensures
            r@ == self@,
    {
        self.value.as_str()
    }
}

impl Clone for TraderId {
    fn clone(&self) -> (r: Self)
        ensures
            r == *self,
    {
        TraderId { value: self.value.clone() }
    }
}

/// A strategy identifier.
pub struct StrategyId {
    pub value: String,
}

impl View for StrategyId {
    type V = Seq<char>;

    open spec fn view(&self) -> Seq<char> {
        self.value@
    }
}

impl StrategyId {
    pub fn new(value: String) -> (r: Self)
        ensures
            r@ == value@,
    {
        StrategyId { value }
    }

    pub fn as_str(&self) -> (r: &str)
        ensures
            r@ == self@,
    {
        self.value.as_str()
    }
}

impl Clone for StrategyId {
    fn clone(&self) -> (r: Self)
        ensures
            r == *self,
    {
        StrategyId { value: self.value.clone() }
    }
}

impl PartialEq for StrategyId {
    fn eq(&self, other: &Self) -> (r: bool) {
        self.value == other.value
    }
}

impl vstd::std_specs::cmp::PartialEqSpecImpl for StrategyId {
    open spec fn obeys_eq_spec() -> bool {
        true
    }

    open spec fn eq_spec(&self, other: &Self) -> bool {
        self@ == other@
    }
}

/// An actor identifier.
pub struct ActorId {
    pub value: String,
}

impl View for ActorId {
    type V = Seq<char>;

    open spec fn view(&self) -> Seq<char> {
        self.value@
    }
}

impl ActorId {
    pub fn new(value: String) -> (r: Self)
        ensures
            r@ == value@,
    {
        ActorId { value }
    }

    pub fn as_str(&self) -> (r: &str)
        ensures
            r@ == self@,
    {
        self.value.as_str()
    }
}

impl Clone for ActorId {
    fn clone(&self) -> (r: Self)
        ensures
            r == *self,
    {
        ActorId { value: self.value.clone() }
    }
}

/// A component identifier.
pub struct ComponentId {
    pub value: String,
}

impl View for ComponentId {
    type V = Seq<char>;

    open spec fn view(&self) -> Seq<char> {
        self.value@
    }
}

impl ComponentId {
    pub fn new(value: String) -> (r: Self)
        ensures
            r@ == value@,
    {
        ComponentId { value }
    }

    pub fn as_str(&self) -> (r: &str)
        ensures
            r@ == self@,
    {
        self.value.as_str()
    }
}

impl Clone for ComponentId {
    fn clone(&self) -> (r: Self)
        ensures
            r == *self,
    {
        ComponentId { value: self.value.clone() }
    }
}

/// A data or execution client identifier.
pub struct ClientId {
    pub value: String,
}

impl View for ClientId {
    type V = Seq<char>;

    open spec fn view(&self) -> Seq<char> {
        self.value@
    }
}

impl ClientId {
    pub fn new(value: String) -> (r: Self)
        ensures
            r@ == value@,
    {
        ClientId { value }
    }

    pub fn as_str(&self) -> (r: &str)
        ensures
            r@ == self@,
    {
        self.value.as_str()
    }
}

impl Clone for ClientId {
    fn clone(&self) -> (r: Self)
        ensures
            r == *self,
    {
        ClientId { value: self.value.clone() }
    }
}

/// A trading venue identifier.
pub struct Venue {
    pub value: String,
}

impl View for Venue {
    type V = Seq<char>;

    open spec fn view(&self) -> Seq<char> {
        self.value@
    }
}

impl Venue {
    pub fn new(value: String) -> (r: Self)
        ensures
            r@ == value@,
    {
        Venue { value }
    }

    pub fn as_str(&self) -> (r: &str)
        ensures
            r@ == self@,
    {
        self.value.as_str()
    }
}

impl Clone for Venue {
    fn clone(&self) -> (r: Self)
        ensures
            r == *self,
    {
        Venue { value: self.value.clone() }
    }
}

impl PartialEq for Venue {
    fn eq(&self, other: &Self) -> (r: bool) {
        self.value == other.value
    }
}

impl vstd::std_specs::cmp::PartialEqSpecImpl for Venue {
    open spec fn obeys_eq_spec() -> bool {
        true
    }

    open spec fn eq_spec(&self, other: &Self) -> bool {
        self@ == other@
    }
}

/// An instrument symbol.
pub struct Symbol {
    pub value: String,
}

impl View for Symbol {
    type V = Seq<char>;

    open spec fn view(&self) -> Seq<char> {
        self.value@
    }
}

impl Symbol {
    pub fn new(value: String) -> (r: Self)
        ensures
            r@ == value@,
    {
        Symbol { value }
    }

    pub fn as_str(&self) -> (r: &str)
        ensures
            r@ == self@,
    {
        self.value.as_str()
    }
}

impl Clone for Symbol {
    fn clone(&self) -> (r: Self)
        ensures
            r == *self,
    {
        Symbol { value: self.value.clone() }
    }
}

impl PartialEq for Symbol {
    fn eq(&self, other: &Self) -> (r: bool) {
        self.value == other.value
    }
}

impl vstd::std_specs::cmp::PartialEqSpecImpl for Symbol {
    open spec fn obeys_eq_spec() -> bool {
        true
    }

    open spec fn eq_spec(&self, other: &Self) -> bool {
        self@ == other@
    }
}

/// An instrument identifier: a symbol qualified by the venue it trades on.
pub struct InstrumentId {
    pub symbol: Symbol,
    pub venue: Venue,
}

impl View for InstrumentId {
    type V = (Seq<char>, Seq<char>);

    open spec fn view(&self) -> (Seq<char>, Seq<char>) {
        (self.symbol@, self.venue@)
    }
}

impl InstrumentId {
    pub fn new(symbol: Symbol, venue: Venue) -> (r: Self)
        ensures
            r.symbol@ == symbol@,
            r.venue@ == venue@,
    {
        InstrumentId { symbol, venue }
    }
}

impl Clone for InstrumentId {
    fn clone(&self) -> (r: Self)
        ensures
            r == *self,
    {
        InstrumentId { symbol: self.symbol.clone(), venue: self.venue.clone() }
    }
}

impl PartialEq for InstrumentId {
    fn eq(&self, other: &Self) -> (r: bool) {
        self.symbol == other.symbol && self.venue == other.venue
    }
}

impl vstd::std_specs::cmp::PartialEqSpecImpl for InstrumentId {
    open spec fn obeys_eq_spec() -> bool {
        true
    }

    open spec fn eq_spec(&self, other: &Self) -> bool {
        self@ == other@
    }
}

/// A client-assigned order identifier.
pub struct ClientOrderId {
    pub value: String,
}

impl View for ClientOrderId {
    type V = Seq<char>;

    open spec fn view(&self) -> Seq<char> {
        self.value@
    }
}

impl ClientOrderId {
    pub fn new(value: String) -> (r: Self)
        ensures
            r@ == value@,
    {
        ClientOrderId { value }
    }

    pub fn as_str(&self) -> (r: &str)
        ensures
            r@ == self@,
    {
        self.value.as_str()
    }
}

impl Clone for ClientOrderId {
    fn clone(&self) -> (r: Self)
        ensures
            r == *self,
    {
        ClientOrderId { value: self.value.clone() }
    }
}

impl PartialEq for ClientOrderId {
    fn eq(&self, other: &Self) -> (r: bool) {
        self.value == other.value
    }
}

impl vstd::std_specs::cmp::PartialEqSpecImpl for ClientOrderId {
    open spec fn obeys_eq_spec() -> bool {
        true
    }

    open spec fn eq_spec(&self, other: &Self) -> bool {
        self@ == other@
    }
}

/// A venue-assigned order identifier.
pub struct VenueOrderId {
    pub value: String,
}

impl View for VenueOrderId {
    type V = Seq<char>;

    open spec fn view(&self) -> Seq<char> {
        self.value@
    }
}

impl VenueOrderId {
    pub fn new(value: String) -> (r: Self)
        ensures
            r@ == value@,
    {
        VenueOrderId { value }
    }

    pub fn as_str(&self) -> (r: &str)
        ensures
            r@ == self@,
    {
        self.value.as_str()
    }
}

impl Clone for VenueOrderId {
    fn clone(&self) -> (r: Self)
        ensures
            r == *self,
    {
        VenueOrderId { value: self.value.clone() }
    }
}

/// An account identifier.
pub struct AccountId {
    pub value: String,
}

impl View for AccountId {
    type V = Seq<char>;

    open spec fn view(&self) -> Seq<char> {
        self.value@
    }
}

impl AccountId {
    pub fn new(value: String) -> (r: Self)
        ensures
            r@ == value@,
    {
        AccountId { value }
    }

    pub fn as_str(&self) -> (r: &str)
        ensures
            r@ == self@,
    {
        self.value.as_str()
    }
}

impl Clone for AccountId {
    fn clone(&self) -> (r: Self)
        ensures
            r == *self,
    {
        AccountId { value: self.value.clone() }
    }
}

/// A position identifier.
pub struct PositionId {
    pub value: String,
}

impl View for PositionId {
    type V = Seq<char>;

    open spec fn view(&self) -> Seq<char> {
        self.value@
    }
}

impl PositionId {
    pub fn new(value: String) -> (r: Self)
        ensures
            r@ == value@,
    {
        PositionId { value }
    }

    pub fn as_str(&self) -> (r: &str)
        ensures
            r@ == self@,
    {
        self.value.as_str()
    }
}

impl Clone for PositionId {
    fn clone(&self) -> (r: Self)
        ensures
            r == *self,
    {
        PositionId { value: self.value.clone() }
    }
}

impl PartialEq for PositionId {
    fn eq(&self, other: &Self) -> (r: bool) {
        self.value == other.value
    }
}

impl vstd::std_specs::cmp::PartialEqSpecImpl for PositionId {
    open spec fn obeys_eq_spec() -> bool {
        true
    }

    open spec fn eq_spec(&self, other: &Self) -> bool {
        self@ == other@
    }
}

/// A trade (fill) identifier.
pub struct TradeId {
    pub value: String,
}

impl View for TradeId {
    type V = Seq<char>;

    open spec fn view(&self) -> Seq<char> {
        self.value@
    }
}

impl TradeId {
    pub fn new(value: String) -> (r: Self)
        ensures
            r@ == value@,
    {
        TradeId { value }
    }

    pub fn as_str(&self) -> (r: &str)
        ensures
            r@ == self@,
    {
        self.value.as_str()
    }
}

impl Clone for TradeId {
    fn clone(&self) -> (r: Self)
        ensures
            r == *self,
    {
        TradeId { value: self.value.clone() }
    }
}

/// An order list identifier.
pub struct OrderListId {
    pub value: String,
}

impl View for OrderListId {
    type V = Seq<char>;

    open spec fn view(&self) -> Seq<char> {
        self.value@
    }
}

impl OrderListId {
    pub fn new(value: String) -> (r: Self)
        ensures
            r@ == value@,
    {
        OrderListId { value }
    }

    pub fn as_str(&self) -> (r: &str)
        ensures
            r@ == self@,
    {
        self.value.as_str()
    }
}

impl Clone for OrderListId {
    fn clone(&self) -> (r: Self)
        ensures
            r == *self,
    {
        OrderListId { value: self.value.clone() }
    }
}

/// An execution algorithm identifier.
pub struct ExecAlgorithmId {
    pub value: String,
}

impl View for ExecAlgorithmId {
    type V = Seq<char>;

    open spec fn view(&self) -> Seq<char> {
        self.value@
    }
}

impl ExecAlgorithmId {
    pub fn new(value: String) -> (r: Self)
        ensures
            r@ == value@,
    {
        ExecAlgorithmId { value }
    }

    pub fn as_str(&self) -> (r: &str)
        ensures
            r@ == self@,
    {
        self.value.as_str()
    }
}

impl Clone for ExecAlgorithmId {
    fn clone(&self) -> (r: Self)
        ensures
            r == *self,
    {
        ExecAlgorithmId { value: self.value.clone() }
    }
}

/// A custom data type name, keying custom-data topics.
pub struct DataType {
    pub name: String,
}

impl View for DataType {
    type V = Seq<char>;

    open spec fn view(&self) -> Seq<char> {
        self.name@
    }
}

impl DataType {
    pub fn new(name: String) -> (r: Self)
        ensures
            r@ == name@,
    {
        DataType { name }
    }

    pub fn as_str(&self) -> (r: &str)
        ensures
            r@ == self@,
    {
        self.name.as_str()
    }
}

impl Clone for DataType {
    fn clone(&self) -> (r: Self)
        ensures
            r == *self,
    {
        DataType { name: self.name.clone() }
    }
}

impl PartialEq for DataType {
    fn eq(&self, other: &Self) -> (r: bool) {
        self.name == other.name
    }
}

impl vstd::std_specs::cmp::PartialEqSpecImpl for DataType {
    open spec fn obeys_eq_spec() -> bool {
        true
    }

    open spec fn eq_spec(&self, other: &Self) -> bool {
        self@ == other@
    }
}

/// A bar type: an instrument plus the bar specification rendered in its
/// canonical dashed form (for example `1-MINUTE-LAST-INTERNAL`).
pub struct BarType {
    pub instrument_id: InstrumentId,
    pub spec: String,
}

impl View for BarType {
    type V = (Seq<char>, Seq<char>, Seq<char>);

    open spec fn view(&self) -> (Seq<char>, Seq<char>, Seq<char>) {
        (self.instrument_id.symbol@, self.instrument_id.venue@, self.spec@)
    }
}

impl BarType {
    pub fn new(instrument_id: InstrumentId, spec: String) -> (r: Self)
        ensures
            r.instrument_id == instrument_id,
            r.spec@ == spec@,
    {
        BarType { instrument_id, spec }
    }
}

impl Clone for BarType {
    fn clone(&self) -> (r: Self)
        ensures
            r == *self,
    {
        BarType { instrument_id: self.instrument_id.clone(), spec: self.spec.clone() }
    }
}

impl PartialEq for BarType {
    fn eq(&self, other: &Self) -> (r: bool) {
        self.instrument_id == other.instrument_id && self.spec == other.spec
    }
}

impl vstd::std_specs::cmp::PartialEqSpecImpl for BarType {
    open spec fn obeys_eq_spec() -> bool {
        true
    }

    open spec fn eq_spec(&self, other: &Self) -> bool {
        self@ == other@
    }
}

} // verus!
