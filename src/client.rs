//! The client's configuration, and the requests it makes.
use vstd::prelude::*;

verus! {

/// The request header that carries the API key.
pub const AUTH_HEADER: &'static str = "X-Starfighter-Authorization";

/// Where the API is and the key that authorizes requests to it; fixed for the
/// client's lifetime.
#[derive(Copy, Clone, Debug)]
pub struct StockfighterHttpApi {
    pub base_url: &'static str,
    pub api_key: &'static str,
}

impl StockfighterHttpApi {
    pub fn new(base_url: &'static str, api_key: &'static str) -> (r: Self)
        ensures
            r.base_url@ == base_url@,
            r.api_key@ == api_key@,
    {
        StockfighterHttpApi { base_url, api_key }
    }

    /// The URL of `path`: the base URL followed by the path as it is.
    pub fn url(&self, path: &str) -> (r: String)
        ensures
            r@ == self.base_url@ + path@,
    {
        let mut u = String::from_str(self.base_url);
        u.append(path);
        u
    }

    /// The value of the authorization header: the API key.
    pub fn auth_value(&self) -> (r: String)
        ensures
            r@ == self.api_key@,
    {
        String::from_str(self.api_key)
    }
}

/// The path of the exchange's heartbeat.
pub fn heartbeat_path() -> (r: String)
    ensures
        r@ == "/heartbeat"@,
{
    String::from_str("/heartbeat")
}

/// The path of the venue list.
pub fn venues_path() -> (r: String)
    ensures
        r@ == "/venues"@,
{
    String::from_str("/venues")
}

/// The path of a venue's heartbeat; `venue` goes in as it is, unescaped.
pub fn venue_heartbeat_path(venue: &str) -> (r: String)
    ensures
        r@ == "/venues/"@ + venue@ + "/heartbeat"@,
{
    let mut p = String::from_str("/venues/");
    p.append(venue);
    p.append("/heartbeat");
    p
}

/// The path of a stock's order book on a venue; both go in as they are.
pub fn stock_orderbook_path(venue: &str, stock: &str) -> (r: String)
    ensures
        r@ == "/venues/"@ + venue@ + "/stocks/"@ + stock@,
{
    let mut p = String::from_str("/venues/");
    p.append(venue);
    p.append("/stocks/");
    p.append(stock);
    p
}

} // verus!
