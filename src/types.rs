//! The values that the decoders produce, and the errors they report.
use vstd::prelude::*;

verus! {

/// A venue (a simulated exchange) as the venue list describes it.
#[derive(Debug)]
pub struct VenueInfo {
    pub id: u64,
    pub name: String,
    pub is_open: bool,
    pub venue: String,
}

/// The mathematical value of a `VenueInfo`.
pub struct VenueView {
    pub id: u64,
    pub name: Seq<char>,
    pub is_open: bool,
    pub venue: Seq<char>,
}

impl View for VenueInfo {
    type V = VenueView;

    open spec fn view(&self) -> VenueView {
        VenueView { id: self.id, name: self.name@, is_open: self.is_open, venue: self.venue@ }
    }
}

/// A resting order of an order book; `is_buy` tells a bid from an ask.
#[derive(Copy, Clone, Debug, PartialEq, Eq, Structural)]
pub struct Order {
    pub price: u64,
    pub qty: u64,
    pub is_buy: bool,
}

/// A calendar date and time of day, without a time zone.
#[derive(Copy, Clone, Debug, PartialEq, Eq, Structural)]
pub struct Timestamp {
    pub year: i32,
    pub month: u32,
    pub day: u32,
    pub hour: u32,
    pub minute: u32,
    pub second: u32,
    /// Nanoseconds within the second; 1_000_000_000 and above mark a leap second.
    pub nanosecond: u32,
}

impl Timestamp {
    /// Each field lies in its calendar range.
    pub open spec fn wf(self) -> bool {
        &&& 1 <= self.month <= 12
        &&& 1 <= self.day <= 31
        &&& self.hour < 24
        &&& self.minute < 60
        &&& self.second < 60
        &&& self.nanosecond < 2_000_000_000
    }
}

/// A snapshot of the orders resting on one stock of one venue.
#[derive(Debug)]
pub struct Orderbook {
    pub bids: Vec<Order>,
    pub asks: Vec<Order>,
    pub timestamp: Timestamp,
}

/// The mathematical value of an `Orderbook`.
pub struct OrderbookView {
    pub bids: Seq<Order>,
    pub asks: Seq<Order>,
    pub timestamp: Timestamp,
}

impl View for Orderbook {
    type V = OrderbookView;

    open spec fn view(&self) -> OrderbookView {
        OrderbookView { bids: self.bids@, asks: self.asks@, timestamp: self.timestamp }
    }
}

/// Why a call failed.
#[derive(Debug)]
pub enum StockfighterError {
    /// The request could not be sent, or no response came back.
    RequestFailed,
    /// The response body is not valid JSON.
    InvalidResponseBody,
    /// A value that must be a JSON object is something else.
    NotAnObject,
    /// A required member is absent.
    MissingField(String),
    /// A required member has the wrong JSON type.
    WrongFieldType(String),
    /// A venue's state is neither "open" nor "closed".
    UnexpectedVenueState(String),
    /// A timestamp is not in the ISO 8601 form with an offset.
    InvalidTimestamp(String),
    /// The server reported failure, with this message.
    Api(String),
}

/// The mathematical value of a `StockfighterError`.
pub enum Failure {
    RequestFailed,
    InvalidResponseBody,
    NotAnObject,
    MissingField(Seq<char>),
    WrongFieldType(Seq<char>),
    UnexpectedVenueState(Seq<char>),
    InvalidTimestamp(Seq<char>),
    Api(Seq<char>),
}

impl Failure {
    /// A failure that comes from the shape of a response rather than from the
    /// server or the transport.
    pub open spec fn is_shape_error(self) -> bool {
        ||| self is NotAnObject
        ||| self is MissingField
        ||| self is WrongFieldType
        ||| self is UnexpectedVenueState
        ||| self is InvalidTimestamp
    }
}

impl View for StockfighterError {
    type V = Failure;

    open spec fn view(&self) -> Failure {
        match self {
            StockfighterError::RequestFailed => Failure::RequestFailed,
            StockfighterError::InvalidResponseBody => Failure::InvalidResponseBody,
            StockfighterError::NotAnObject => Failure::NotAnObject,
            StockfighterError::MissingField(s) => Failure::MissingField(s@),
            StockfighterError::WrongFieldType(s) => Failure::WrongFieldType(s@),
            StockfighterError::UnexpectedVenueState(s) => Failure::UnexpectedVenueState(s@),
            StockfighterError::InvalidTimestamp(s) => Failure::InvalidTimestamp(s@),
            StockfighterError::Api(s) => Failure::Api(s@),
        }
    }
}

impl Failure {
    /// The text that describes the failure; the server's own message for `Api`.
    pub open spec fn message(self) -> Seq<char> {
        match self {
            Failure::RequestFailed => "Error sending request"@,
            Failure::InvalidResponseBody => "Response body invalid"@,
            Failure::NotAnObject => "Expected a JSON object"@,
            Failure::MissingField(f) => "Missing field: "@ + f,
            Failure::WrongFieldType(f) => "Field has the wrong type: "@ + f,
            Failure::UnexpectedVenueState(v) => "Unexpected value for venue state: "@ + v,
            Failure::InvalidTimestamp(t) => "Invalid timestamp: "@ + t,
            Failure::Api(m) => m,
        }
    }
}

impl StockfighterError {
    /// A short description of the error.
    pub fn message(&self) -> (r: String)
        ensures
            r@ == self@.message(),
    {
        match self {
            StockfighterError::RequestFailed => String::from_str("Error sending request"),
            StockfighterError::InvalidResponseBody => String::from_str("Response body invalid"),
            StockfighterError::NotAnObject => String::from_str("Expected a JSON object"),
            StockfighterError::MissingField(f) => {
                let mut s = String::from_str("Missing field: ");
                s.append(f.as_str());
                s
            },
            StockfighterError::WrongFieldType(f) => {
                let mut s = String::from_str("Field has the wrong type: ");
                s.append(f.as_str());
                s
            },
            StockfighterError::UnexpectedVenueState(v) => {
                let mut s = String::from_str("Unexpected value for venue state: ");
                s.append(v.as_str());
                s
            },
            StockfighterError::InvalidTimestamp(t) => {
                let mut s = String::from_str("Invalid timestamp: ");
                s.append(t.as_str());
                s
            },
            StockfighterError::Api(m) => m.clone(),
        }
    }
}

/// The outcome of a call.
pub type StockfighterResult<T> = Result<T, StockfighterError>;

} // verus!
