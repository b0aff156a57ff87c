//! Client library for a stock-exchange simulation API: request paths, and the
//! decoding of each endpoint's JSON response into typed values.
pub mod client;
pub mod decode;
pub mod json;
pub mod laws;
pub mod timestamp;
pub mod types;

pub use client::StockfighterHttpApi;
pub use json::JsonDoc;
pub use json::JsonNumber;
pub use types::Order;
pub use types::Orderbook;
pub use types::StockfighterError;
pub use types::StockfighterResult;
pub use types::Timestamp;
pub use types::VenueInfo;
