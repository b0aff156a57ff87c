//! General properties of the decoders, proved over their specifications.
use vstd::prelude::*;
use crate::decode::{
    array_member, decode_all, heartbeat_of, of_body, order_of, orderbook_of, orders_of_seq,
    status_of, str_member, u64_member, venue_of, venues_of, venues_of_seq,
};
use crate::json::{json_text, member, JsonDoc};
use crate::types::{Failure, Order, OrderbookView, VenueView};

verus! {

/// A list decodes to one value per element, in the list's order, each the
/// element's own decoding.
pub proof fn lemma_decode_all_ok<T>(s: Seq<JsonDoc>, f: spec_fn(JsonDoc) -> Result<T, Failure>)
    requires
        decode_all(s, f) is Ok,
    ensures
        decode_all(s, f)->Ok_0.len() == s.len(),
        forall|i: int| 0 <= i < s.len() ==> f(#[trigger] s[i]) == Ok::<T, Failure>(decode_all(s, f)->Ok_0[i]),
    decreases s.len(),
{
    if s.len() > 0 {
        let init = s.drop_last();
        lemma_decode_all_ok(init, f);
        let p = decode_all(init, f)->Ok_0;
        let r = decode_all(s, f)->Ok_0;
        assert(r == p.push(f(s.last())->Ok_0));
        assert forall|i: int| 0 <= i < s.len() implies f(#[trigger] s[i]) == Ok::<T, Failure>(r[i]) by {
            if i < s.len() - 1 {
                assert(s[i] == init[i]);
            }
        }
    }
}

/// Where every element's failure is a shape error, so is the list's.
pub proof fn lemma_decode_all_shape<T>(s: Seq<JsonDoc>, f: spec_fn(JsonDoc) -> Result<T, Failure>)
    requires
        forall|d: JsonDoc| #[trigger] f(d) is Err ==> f(d)->Err_0.is_shape_error(),
        decode_all(s, f) is Err,
    ensures
        decode_all(s, f)->Err_0.is_shape_error(),
    decreases s.len(),
{
    if decode_all(s.drop_last(), f) is Err {
        lemma_decode_all_shape(s.drop_last(), f);
    }
}

/// A body that is not valid JSON gives `InvalidResponseBody`, from every decoder.
pub proof fn malformed_body_is_invalid(b: Seq<u8>)
    requires
        json_text(b) is None,
    ensures
        of_body(b, |d: JsonDoc| heartbeat_of(d)) == Err::<(), Failure>(Failure::InvalidResponseBody),
        of_body(b, |d: JsonDoc| venues_of(d)) == Err::<Seq<VenueView>, Failure>(
            Failure::InvalidResponseBody,
        ),
        of_body(b, |d: JsonDoc| orderbook_of(d)) == Err::<OrderbookView, Failure>(
            Failure::InvalidResponseBody,
        ),
{
}

/// A venue's state decides `is_open`: "open" gives true, "closed" false, and
/// any other text is an error naming it.
pub proof fn venue_state_decides(d: JsonDoc, state: Seq<char>)
    requires
        d is Object,
        str_member(d, "state"@) == Ok::<Seq<char>, Failure>(state),
    ensures
        venue_of(d) is Ok ==> (venue_of(d)->Ok_0.is_open <==> state == "open"@),
        venue_of(d) is Ok ==> (state == "open"@ || state == "closed"@),
        state != "open"@ && state != "closed"@ ==> venue_of(d) == Err::<VenueView, Failure>(
            Failure::UnexpectedVenueState(state),
        ),
{
}

proof fn lemma_element_errors_are_shape()
    ensures
        forall|d: JsonDoc| #[trigger] venue_of(d) is Err ==> venue_of(d)->Err_0.is_shape_error(),
        forall|d: JsonDoc, b: bool| #[trigger] order_of(d, b) is Err ==> order_of(d, b)->Err_0.is_shape_error(),
{
}

/// A required member that is absent from an otherwise well-formed response is
/// reported as a shape error: the response is never accepted without it.
pub proof fn missing_member_is_shape_error(d: JsonDoc, key: Seq<char>)
    requires
        d is Object,
        member(d, key) is None,
    ensures
        key == "ok"@ ==> heartbeat_of(d) == Err::<(), Failure>(Failure::MissingField(key)),
        key == "id"@ ==> venues_of(d) == Err::<Seq<VenueView>, Failure>(Failure::MissingField(key)),
        key == "venues"@ && status_of(d, "id"@) is Ok ==> venues_of(d) == Err::<Seq<VenueView>, Failure>(
            Failure::MissingField(key),
        ),
        key == "state"@ || key == "id"@ || key == "name"@ || key == "venue"@ ==> venue_of(d) is Err
            && venue_of(d)->Err_0.is_shape_error(),
        key == "price"@ || key == "qty"@ ==> forall|is_buy: bool|
            #[trigger] order_of(d, is_buy) is Err && order_of(d, is_buy)->Err_0.is_shape_error(),
        (key == "bids"@ || key == "asks"@ || key == "ts"@) && status_of(d, "ok"@) is Ok ==> orderbook_of(d) is Err
            && orderbook_of(d)->Err_0.is_shape_error(),
{
    lemma_element_errors_are_shape();
    if status_of(d, "ok"@) is Ok {
        if let Ok(b) = array_member(d, "bids"@) {
            if orders_of_seq(b, true) is Err {
                lemma_decode_all_shape(b, |x: JsonDoc| order_of(x, true));
            }
        }
        if let Ok(a) = array_member(d, "asks"@) {
            if orders_of_seq(a, false) is Err {
                lemma_decode_all_shape(a, |x: JsonDoc| order_of(x, false));
            }
        }
    }
}

/// An order book keeps the server's order of bids and of asks, marks bids as
/// buys and asks as sells, and carries each price and quantity exactly as the
/// response gives it.
pub proof fn orderbook_keeps_orders(d: JsonDoc)
    requires
        orderbook_of(d) is Ok,
    ensures
        ({
            let book = orderbook_of(d)->Ok_0;
            let bids = array_member(d, "bids"@)->Ok_0;
            let asks = array_member(d, "asks"@)->Ok_0;
            &&& book.bids.len() == bids.len()
            &&& book.asks.len() == asks.len()
            &&& forall|i: int| 0 <= i < bids.len() ==> {
                &&& (#[trigger] book.bids[i]).is_buy
                &&& u64_member(bids[i], "price"@) == Ok::<u64, Failure>(book.bids[i].price)
                &&& u64_member(bids[i], "qty"@) == Ok::<u64, Failure>(book.bids[i].qty)
            }
            &&& forall|i: int| 0 <= i < asks.len() ==> {
                &&& !(#[trigger] book.asks[i]).is_buy
                &&& u64_member(asks[i], "price"@) == Ok::<u64, Failure>(book.asks[i].price)
                &&& u64_member(asks[i], "qty"@) == Ok::<u64, Failure>(book.asks[i].qty)
            }
        }),
{
    let bids = array_member(d, "bids"@)->Ok_0;
    let asks = array_member(d, "asks"@)->Ok_0;
    let fb = |x: JsonDoc| order_of(x, true);
    let fa = |x: JsonDoc| order_of(x, false);
    lemma_decode_all_ok(bids, fb);
    lemma_decode_all_ok(asks, fa);
    let book = orderbook_of(d)->Ok_0;
    assert forall|i: int| 0 <= i < bids.len() implies (#[trigger] book.bids[i]).is_buy by {
        assert(fb(bids[i]) == Ok::<Order, Failure>(book.bids[i]));
    }
    assert forall|i: int| 0 <= i < asks.len() implies !(#[trigger] book.asks[i]).is_buy by {
        assert(fa(asks[i]) == Ok::<Order, Failure>(book.asks[i]));
    }
}

/// The venue list keeps the server's order, one venue per element.
pub proof fn venues_keep_order(d: JsonDoc)
    requires
        venues_of(d) is Ok,
    ensures
        ({
            let list = array_member(d, "venues"@)->Ok_0;
            &&& venues_of(d)->Ok_0.len() == list.len()
            &&& forall|i: int| 0 <= i < list.len() ==> venue_of(#[trigger] list[i]) == Ok::<VenueView, Failure>(venues_of(d)->Ok_0[i])
        }),
{
    let list = array_member(d, "venues"@)->Ok_0;
    lemma_decode_all_ok(list, |x: JsonDoc| venue_of(x));
    assert(venues_of_seq(list) == venues_of(d));
}

} // verus!
