//! Decoding of each endpoint's JSON response into typed values.
//!
//! Every response is a JSON object with a boolean success flag. When the flag
//! is false the object's `error` member is the server's message; when it is
//! true the endpoint's members are read by name. A response of the wrong shape
//! is reported as an error, never accepted with made-up values.
use vstd::prelude::*;
use crate::json::{
    as_array, as_bool, as_str, as_u64, get_member, is_object, json_of, json_text, member,
    parse_value, JsonDoc, JsonNumber,
};
use crate::timestamp::{iso_datetime, parse_iso_datetime};
use crate::types::{
    Failure, Order, Orderbook, OrderbookView, StockfighterError, StockfighterResult, VenueInfo,
    VenueView,
};

verus! {

// ---------------------------------------------------------------------------
// What each decoder returns, over the model of the document.

/// The boolean member `key` of `d`.
pub open spec fn bool_member(d: JsonDoc, key: Seq<char>) -> Result<bool, Failure> {
    match member(d, key) {
        None => Err(Failure::MissingField(key)),
        Some(JsonDoc::Bool(b)) => Ok(b),
        Some(_) => Err(Failure::WrongFieldType(key)),
    }
}

/// The string member `key` of `d`.
pub open spec fn str_member(d: JsonDoc, key: Seq<char>) -> Result<Seq<char>, Failure> {
    match member(d, key) {
        None => Err(Failure::MissingField(key)),
        Some(JsonDoc::Str(s)) => Ok(s),
        Some(_) => Err(Failure::WrongFieldType(key)),
    }
}

/// The member `key` of `d`, a non-negative integer that fits in 64 bits.
pub open spec fn u64_member(d: JsonDoc, key: Seq<char>) -> Result<u64, Failure> {
    match member(d, key) {
        None => Err(Failure::MissingField(key)),
        Some(JsonDoc::Number(JsonNumber::Unsigned(n))) => Ok(n),
        Some(_) => Err(Failure::WrongFieldType(key)),
    }
}

/// The array member `key` of `d`.
pub open spec fn array_member(d: JsonDoc, key: Seq<char>) -> Result<Seq<JsonDoc>, Failure> {
    match member(d, key) {
        None => Err(Failure::MissingField(key)),
        Some(JsonDoc::Array(s)) => Ok(s),
        Some(_) => Err(Failure::WrongFieldType(key)),
    }
}

/// The outcome that a response's success flag `flag` announces: success, or the
/// server's message.
pub open spec fn status_of(d: JsonDoc, flag: Seq<char>) -> Result<(), Failure> {
    if !(d is Object) {
        Err(Failure::NotAnObject)
    } else {
        match bool_member(d, flag) {
            Err(e) => Err(e),
            Ok(true) => Ok(()),
            Ok(false) => match str_member(d, "error"@) {
                Err(e) => Err(e),
                Ok(m) => Err(Failure::Api(m)),
            },
        }
    }
}

/// The meaning of a venue's `state`.
pub open spec fn venue_state_of(s: Seq<char>) -> Result<bool, Failure> {
    if s == "open"@ {
        Ok(true)
    } else if s == "closed"@ {
        Ok(false)
    } else {
        Err(Failure::UnexpectedVenueState(s))
    }
}

/// The venue that one element of the venue list describes.
pub open spec fn venue_of(d: JsonDoc) -> Result<VenueView, Failure> {
    if !(d is Object) {
        Err(Failure::NotAnObject)
    } else {
        match str_member(d, "state"@) {
            Err(e) => Err(e),
            Ok(state) => match venue_state_of(state) {
                Err(e) => Err(e),
                Ok(is_open) => match u64_member(d, "id"@) {
                    Err(e) => Err(e),
                    Ok(id) => match str_member(d, "name"@) {
                        Err(e) => Err(e),
                        Ok(name) => match str_member(d, "venue"@) {
                            Err(e) => Err(e),
                            Ok(venue) => Ok(VenueView { id, name, is_open, venue }),
                        },
                    },
                },
            },
        }
    }
}

/// Each document of `s` decoded by `f`, in order; the first element that
/// fails decides the error.
pub open spec fn decode_all<T>(s: Seq<JsonDoc>, f: spec_fn(JsonDoc) -> Result<T, Failure>) -> Result<Seq<T>, Failure>
    decreases s.len(),
{
    if s.len() == 0 {
        Ok(Seq::empty())
    } else {
        match decode_all(s.drop_last(), f) {
            Err(e) => Err(e),
            Ok(p) => match f(s.last()) {
                Err(e) => Err(e),
                Ok(x) => Ok(p.push(x)),
            },
        }
    }
}

/// Once a prefix of a list fails, the whole list fails with the same error.
pub proof fn lemma_decode_all_prefix_err<T>(s: Seq<JsonDoc>, f: spec_fn(JsonDoc) -> Result<T, Failure>, k: int)
    requires
        0 <= k <= s.len(),
        decode_all(s.take(k), f) is Err,
    ensures
        decode_all(s, f) == decode_all(s.take(k), f),
    decreases s.len() - k,
{
    if k < s.len() {
        let t = s.take(k + 1);
        assert(t.drop_last() =~= s.take(k));
        lemma_decode_all_prefix_err(s, f, k + 1);
    } else {
        assert(s.take(k) =~= s);
    }
}

/// The venues of a list, in its order.
pub open spec fn venues_of_seq(s: Seq<JsonDoc>) -> Result<Seq<VenueView>, Failure> {
    decode_all(s, |d: JsonDoc| venue_of(d))
}

/// The order that one element of `bids` (`is_buy`) or `asks` describes.
pub open spec fn order_of(d: JsonDoc, is_buy: bool) -> Result<Order, Failure> {
    if !(d is Object) {
        Err(Failure::NotAnObject)
    } else {
        match u64_member(d, "price"@) {
            Err(e) => Err(e),
            Ok(price) => match u64_member(d, "qty"@) {
                Err(e) => Err(e),
                Ok(qty) => Ok(Order { price, qty, is_buy }),
            },
        }
    }
}

/// The orders of a list, in its order.
pub open spec fn orders_of_seq(s: Seq<JsonDoc>, is_buy: bool) -> Result<Seq<Order>, Failure> {
    decode_all(s, |d: JsonDoc| order_of(d, is_buy))
}

/// The response of the heartbeat endpoints.
pub open spec fn heartbeat_of(d: JsonDoc) -> Result<(), Failure> {
    status_of(d, "ok"@)
}

/// The response of the venue list. Its success flag is named `id`, where every
/// other endpoint says `ok`: that is how the server answers, and it is kept.
pub open spec fn venues_of(d: JsonDoc) -> Result<Seq<VenueView>, Failure> {
    match status_of(d, "id"@) {
        Err(e) => Err(e),
        Ok(_) => match array_member(d, "venues"@) {
            Err(e) => Err(e),
            Ok(s) => venues_of_seq(s),
        },
    }
}

/// The response of the order book endpoint.
pub open spec fn orderbook_of(d: JsonDoc) -> Result<OrderbookView, Failure> {
    match status_of(d, "ok"@) {
        Err(e) => Err(e),
        Ok(_) => match array_member(d, "bids"@) {
            Err(e) => Err(e),
            Ok(b) => match orders_of_seq(b, true) {
                Err(e) => Err(e),
                Ok(bids) => match array_member(d, "asks"@) {
                    Err(e) => Err(e),
                    Ok(a) => match orders_of_seq(a, false) {
                        Err(e) => Err(e),
                        Ok(asks) => match str_member(d, "ts"@) {
                            Err(e) => Err(e),
                            Ok(ts) => match iso_datetime(ts) {
                                None => Err(Failure::InvalidTimestamp(ts)),
                                Some(timestamp) => Ok(OrderbookView { bids, asks, timestamp }),
                            },
                        },
                    },
                },
            },
        },
    }
}

/// What a decoder gives for a response body: `InvalidResponseBody` where the
/// body is not JSON, else `f` of the document.
pub open spec fn of_body<T>(b: Seq<u8>, f: spec_fn(JsonDoc) -> Result<T, Failure>) -> Result<T, Failure> {
    match json_text(b) {
        None => Err(Failure::InvalidResponseBody),
        Some(d) => f(d),
    }
}

/// The view of a decoder's outcome.
pub open spec fn outcome<T, V>(r: StockfighterResult<T>, v: spec_fn(T) -> V) -> Result<V, Failure> {
    match r {
        Ok(t) => Ok(v(t)),
        Err(e) => Err(e@),
    }
}

// ---------------------------------------------------------------------------
// The decoders.

fn missing(key: &str) -> (r: StockfighterError)
    ensures
        r@ == Failure::MissingField(key@),
{
    StockfighterError::MissingField(String::from_str(key))
}

fn wrong_type(key: &str) -> (r: StockfighterError)
    ensures
        r@ == Failure::WrongFieldType(key@),
{
    StockfighterError::WrongFieldType(String::from_str(key))
}

/// Reads the boolean member `key` of `v`.
pub fn bool_field(v: &serde_json::Value, key: &str) -> (r: StockfighterResult<bool>)
    ensures
        outcome(r, |b: bool| b) == bool_member(json_of(*v), key@),
{
    match get_member(v, key) {
        None => Err(missing(key)),
        Some(m) => match as_bool(m) {
            Some(b) => Ok(b),
            None => Err(wrong_type(key)),
        },
    }
}

/// Reads the string member `key` of `v`.
pub fn str_field(v: &serde_json::Value, key: &str) -> (r: StockfighterResult<String>)
    ensures
        outcome(r, |s: String| s@) == str_member(json_of(*v), key@),
{
    match get_member(v, key) {
        None => Err(missing(key)),
        Some(m) => match as_str(m) {
            Some(s) => Ok(String::from_str(s)),
            None => Err(wrong_type(key)),
        },
    }
}

/// Reads the member `key` of `v` as a non-negative 64-bit integer.
pub fn u64_field(v: &serde_json::Value, key: &str) -> (r: StockfighterResult<u64>)
    ensures
        outcome(r, |n: u64| n) == u64_member(json_of(*v), key@),
{
    match get_member(v, key) {
        None => Err(missing(key)),
        Some(m) => match as_u64(m) {
            Some(n) => Ok(n),
            None => Err(wrong_type(key)),
        },
    }
}

/// Reads the success flag `flag` of a response; where it is false, the
/// server's message in `error` is the error.
pub fn check_status(v: &serde_json::Value, flag: &str) -> (r: StockfighterResult<()>)
    ensures
        outcome(r, |u: ()| u) == status_of(json_of(*v), flag@),
{
    if !is_object(v) {
        return Err(StockfighterError::NotAnObject);
    }
    let ok = bool_field(v, flag)?;
    if ok {
        Ok(())
    } else {
        let m = str_field(v, "error")?;
        Err(StockfighterError::Api(m))
    }
}

/// The meaning of a venue's state: "open" and "closed", and nothing else.
pub fn venue_state(state: &str) -> (r: StockfighterResult<bool>)
    ensures
        outcome(r, |b: bool| b) == venue_state_of(state@),
        r is Ok ==> (r->Ok_0 <==> state@ == "open"@),
{
    let s = String::from_str(state);
    if s == String::from_str("open") {
        Ok(true)
    } else if s == String::from_str("closed") {
        Ok(false)
    } else {
        Err(StockfighterError::UnexpectedVenueState(s))
    }
}

/// Decodes one element of the venue list.
pub fn venue_from_json(v: &serde_json::Value) -> (r: StockfighterResult<VenueInfo>)
    ensures
        outcome(r, |x: VenueInfo| x@) == venue_of(json_of(*v)),
{
    if !is_object(v) {
        return Err(StockfighterError::NotAnObject);
    }
    let state = str_field(v, "state")?;
    let is_open = venue_state(state.as_str())?;
    let id = u64_field(v, "id")?;
    let name = str_field(v, "name")?;
    let venue = str_field(v, "venue")?;
    Ok(VenueInfo { id, name, is_open, venue })
}

/// Decodes one element of `bids` (`is_buy`) or `asks`.
pub fn order_from_json(v: &serde_json::Value, is_buy: bool) -> (r: StockfighterResult<Order>)
    ensures
        outcome(r, |o: Order| o) == order_of(json_of(*v), is_buy),
{
    if !is_object(v) {
        return Err(StockfighterError::NotAnObject);
    }
    let price = u64_field(v, "price")?;
    let qty = u64_field(v, "qty")?;
    Ok(Order { price, qty, is_buy })
}

/// The documents that a list of values holds.
pub open spec fn docs_of(s: Seq<serde_json::Value>) -> Seq<JsonDoc> {
    s.map_values(|v: serde_json::Value| json_of(v))
}

/// Decodes a list of venues, keeping its order.
pub fn venues_from_list(list: &Vec<serde_json::Value>) -> (r: StockfighterResult<Vec<VenueInfo>>)
    ensures
        outcome(r, |x: Vec<VenueInfo>| x@.map_values(|i: VenueInfo| i@)) == venues_of_seq(
            docs_of(list@),
        ),
{
    let mut out: Vec<VenueInfo> = Vec::new();
    let mut i: usize = 0;
    assert(docs_of(list@).take(0) =~= Seq::<JsonDoc>::empty());
    assert(out@.map_values(|x: VenueInfo| x@) =~= Seq::<VenueView>::empty());
    while i < list.len()
        invariant
            i <= list@.len(),
            venues_of_seq(docs_of(list@).take(i as int)) == Ok::<Seq<VenueView>, Failure>(
                out@.map_values(|x: VenueInfo| x@),
            ),
        decreases list@.len() - i,
    {
        let ghost before = docs_of(list@).take(i as int);
        let ghost after = docs_of(list@).take(i + 1);
        assert(after.drop_last() =~= before);
        assert(after.last() == json_of(list@[i as int]));
        let ghost done = out@.map_values(|x: VenueInfo| x@);
        let v = match venue_from_json(&list[i]) {
            Ok(v) => v,
            Err(e) => {
                proof {
                    lemma_decode_all_prefix_err(docs_of(list@), |d: JsonDoc| venue_of(d), i + 1);
                }
                return Err(e);
            },
        };
        out.push(v);
        assert(out@.map_values(|x: VenueInfo| x@) =~= done.push(v@));
        i = i + 1;
    }
    assert(docs_of(list@).take(list@.len() as int) =~= docs_of(list@));
    Ok(out)
}

/// Decodes a list of orders, keeping its order; each gets `is_buy`.
pub fn orders_from_list(list: &Vec<serde_json::Value>, is_buy: bool) -> (r: StockfighterResult<Vec<Order>>)
    ensures
        outcome(r, |x: Vec<Order>| x@) == orders_of_seq(docs_of(list@), is_buy),
{
    let mut out: Vec<Order> = Vec::new();
    let mut i: usize = 0;
    assert(docs_of(list@).take(0) =~= Seq::<JsonDoc>::empty());
    while i < list.len()
        invariant
            i <= list@.len(),
            orders_of_seq(docs_of(list@).take(i as int), is_buy) == Ok::<Seq<Order>, Failure>(out@),
        decreases list@.len() - i,
    {
        let ghost before = docs_of(list@).take(i as int);
        let ghost after = docs_of(list@).take(i + 1);
        assert(after.drop_last() =~= before);
        assert(after.last() == json_of(list@[i as int]));
        let o = match order_from_json(&list[i], is_buy) {
            Ok(o) => o,
            Err(e) => {
                proof {
                    lemma_decode_all_prefix_err(
                        docs_of(list@),
                        |d: JsonDoc| order_of(d, is_buy),
                        i + 1,
                    );
                }
                return Err(e);
            },
        };
        out.push(o);
        i = i + 1;
    }
    assert(docs_of(list@).take(list@.len() as int) =~= docs_of(list@));
    Ok(out)
}

/// Reads the array member `key` of `v`.
fn array_field<'a>(v: &'a serde_json::Value, key: &str) -> (r: StockfighterResult<&'a Vec<serde_json::Value>>)
    ensures
        outcome(r, |a: &'a Vec<serde_json::Value>| docs_of(a@)) == array_member(json_of(*v), key@),
{
    match get_member(v, key) {
        None => Err(missing(key)),
        Some(m) => match as_array(m) {
            Some(a) => {
                assert(docs_of(a@) =~= json_of(*m)->Array_0);
                Ok(a)
            },
            None => Err(wrong_type(key)),
        },
    }
}

/// Decodes a heartbeat response (of the exchange or of one venue).
pub fn heartbeat_from_json(v: &serde_json::Value) -> (r: StockfighterResult<()>)
    ensures
        outcome(r, |u: ()| u) == heartbeat_of(json_of(*v)),
{
    check_status(v, "ok")
}

/// Decodes the venue list response, whose success flag is named `id`.
pub fn venues_from_json(v: &serde_json::Value) -> (r: StockfighterResult<Vec<VenueInfo>>)
    ensures
        outcome(r, |x: Vec<VenueInfo>| x@.map_values(|i: VenueInfo| i@)) == venues_of(json_of(*v)),
{
    check_status(v, "id")?;
    let list = array_field(v, "venues")?;
    venues_from_list(list)
}

/// Decodes an order book response.
pub fn orderbook_from_json(v: &serde_json::Value) -> (r: StockfighterResult<Orderbook>)
    ensures
        outcome(r, |b: Orderbook| b@) == orderbook_of(json_of(*v)),
        r is Ok ==> r->Ok_0.timestamp.wf(),
{
    check_status(v, "ok")?;
    let bids = orders_from_list(array_field(v, "bids")?, true)?;
    let asks = orders_from_list(array_field(v, "asks")?, false)?;
    let ts = str_field(v, "ts")?;
    match parse_iso_datetime(ts.as_str()) {
        Ok(timestamp) => Ok(Orderbook { bids, asks, timestamp }),
        Err(_) => Err(StockfighterError::InvalidTimestamp(ts)),
    }
}

/// Reads a response body as JSON.
pub fn decode_body(body: &[u8]) -> (r: StockfighterResult<serde_json::Value>)
    ensures
        r is Ok <==> json_text(body@) is Some,
        r is Ok ==> json_of(r->Ok_0) == json_text(body@)->0,
        r is Err ==> r->Err_0@ == Failure::InvalidResponseBody,
{
    match parse_value(body) {
        Ok(v) => Ok(v),
        Err(_) => Err(StockfighterError::InvalidResponseBody),
    }
}

/// Decodes the body of a heartbeat response.
pub fn heartbeat_response(body: &[u8]) -> (r: StockfighterResult<()>)
    ensures
        outcome(r, |u: ()| u) == of_body(body@, |d: JsonDoc| heartbeat_of(d)),
{
    let v = decode_body(body)?;
    heartbeat_from_json(&v)
}

/// Decodes the body of a venue list response.
pub fn venues_response(body: &[u8]) -> (r: StockfighterResult<Vec<VenueInfo>>)
    ensures
        outcome(r, |x: Vec<VenueInfo>| x@.map_values(|i: VenueInfo| i@)) == of_body(
            body@,
            |d: JsonDoc| venues_of(d),
        ),
{
    let v = decode_body(body)?;
    venues_from_json(&v)
}

/// Decodes the body of an order book response.
pub fn orderbook_response(body: &[u8]) -> (r: StockfighterResult<Orderbook>)
    ensures
        outcome(r, |b: Orderbook| b@) == of_body(body@, |d: JsonDoc| orderbook_of(d)),
        r is Ok ==> r->Ok_0.timestamp.wf(),
{
    let v = decode_body(body)?;
    orderbook_from_json(&v)
}

} // verus!
