use stockfighter::client::{
    heartbeat_path, stock_orderbook_path, venue_heartbeat_path, venues_path, AUTH_HEADER,
};
use stockfighter::decode::{
    decode_body, heartbeat_response, orderbook_response, venue_state, venues_response,
};
use stockfighter::{Order, StockfighterError, StockfighterHttpApi, Timestamp};

fn api_message(e: StockfighterError) -> String {
    match e {
        StockfighterError::Api(m) => m,
        other => panic!("expected an API error, got {:?}", other),
    }
}

#[test]
fn heartbeat_ok() {
    assert!(heartbeat_response(br#"{"ok": true}"#).is_ok());
}

#[test]
fn heartbeat_error_message() {
    let e = heartbeat_response(br#"{"ok": false, "error": "down"}"#).unwrap_err();
    assert_eq!(api_message(e), "down");
}

#[test]
fn heartbeat_missing_flag() {
    match heartbeat_response(br#"{"error": "down"}"#) {
        Err(StockfighterError::MissingField(f)) => assert_eq!(f, "ok"),
        other => panic!("unexpected {:?}", other),
    }
}

#[test]
fn heartbeat_flag_wrong_type() {
    match heartbeat_response(br#"{"ok": "yes"}"#) {
        Err(StockfighterError::WrongFieldType(f)) => assert_eq!(f, "ok"),
        other => panic!("unexpected {:?}", other),
    }
}

#[test]
fn heartbeat_not_an_object() {
    assert!(matches!(heartbeat_response(b"[true]"), Err(StockfighterError::NotAnObject)));
}

#[test]
fn heartbeat_error_without_message() {
    match heartbeat_response(br#"{"ok": false}"#) {
        Err(StockfighterError::MissingField(f)) => assert_eq!(f, "error"),
        other => panic!("unexpected {:?}", other),
    }
}

#[test]
fn venues_one_open() {
    let body = br#"{"id": true, "venues": [{"id": 1, "name": "Test Exchange", "venue": "TESTEX", "state": "open"}]}"#;
    let v = venues_response(body).unwrap();
    assert_eq!(v.len(), 1);
    assert_eq!(v[0].id, 1);
    assert_eq!(v[0].name, "Test Exchange");
    assert_eq!(v[0].venue, "TESTEX");
    assert!(v[0].is_open);
}

#[test]
fn venues_closed_and_order_kept() {
    let body = br#"{"id": true, "venues": [
        {"id": 7, "name": "B", "venue": "BEX", "state": "closed"},
        {"id": 3, "name": "A", "venue": "AEX", "state": "open"}]}"#;
    let v = venues_response(body).unwrap();
    assert_eq!(v.len(), 2);
    assert_eq!(v[0].id, 7);
    assert!(!v[0].is_open);
    assert_eq!(v[1].venue, "AEX");
    assert!(v[1].is_open);
}

#[test]
fn venues_empty_list() {
    assert!(venues_response(br#"{"id": true, "venues": []}"#).unwrap().is_empty());
}

#[test]
fn venues_unknown_state_rejected() {
    let body = br#"{"id": true, "venues": [{"id": 1, "name": "X", "venue": "XEX", "state": "paused"}]}"#;
    match venues_response(body) {
        Err(StockfighterError::UnexpectedVenueState(s)) => assert_eq!(s, "paused"),
        other => panic!("unexpected {:?}", other),
    }
}

#[test]
fn venues_flag_is_id() {
    // The venue list announces success in `id`, not `ok`.
    match venues_response(br#"{"ok": true, "venues": []}"#) {
        Err(StockfighterError::MissingField(f)) => assert_eq!(f, "id"),
        other => panic!("unexpected {:?}", other),
    }
    let e = venues_response(br#"{"id": false, "error": "no venues"}"#).unwrap_err();
    assert_eq!(api_message(e), "no venues");
}

#[test]
fn venues_missing_member_of_element() {
    let body = br#"{"id": true, "venues": [{"id": 1, "venue": "XEX", "state": "open"}]}"#;
    match venues_response(body) {
        Err(StockfighterError::MissingField(f)) => assert_eq!(f, "name"),
        other => panic!("unexpected {:?}", other),
    }
}

#[test]
fn venues_element_not_an_object() {
    assert!(matches!(
        venues_response(br#"{"id": true, "venues": [1]}"#),
        Err(StockfighterError::NotAnObject)
    ));
}

#[test]
fn venue_state_values() {
    assert!(venue_state("open").unwrap());
    assert!(!venue_state("closed").unwrap());
    assert!(matches!(venue_state("Open"), Err(StockfighterError::UnexpectedVenueState(_))));
    assert!(matches!(venue_state(""), Err(StockfighterError::UnexpectedVenueState(_))));
}

const BOOK: &[u8] = br#"{"ok": true, "venue": "TESTEX", "symbol": "FOOBAR",
    "bids": [{"price": 100, "qty": 5, "isBuy": true}],
    "asks": [{"price": 110, "qty": 3, "isBuy": false}],
    "ts": "2015-12-04T09:02:16.680986205Z"}"#;

#[test]
fn orderbook_one_bid_one_ask() {
    let b = orderbook_response(BOOK).unwrap();
    assert_eq!(b.bids, vec![Order { price: 100, qty: 5, is_buy: true }]);
    assert_eq!(b.asks, vec![Order { price: 110, qty: 3, is_buy: false }]);
}

#[test]
fn orderbook_timestamp() {
    let b = orderbook_response(BOOK).unwrap();
    assert_eq!(
        b.timestamp,
        Timestamp { year: 2015, month: 12, day: 4, hour: 9, minute: 2, second: 16, nanosecond: 680986205 }
    );
}

#[test]
fn orderbook_keeps_server_order() {
    let body = br#"{"ok": true, "bids": [{"price": 90, "qty": 1}, {"price": 95, "qty": 2}],
        "asks": [], "ts": "2016-01-02T03:04:05Z"}"#;
    let b = orderbook_response(body).unwrap();
    assert_eq!(b.bids.len(), 2);
    assert_eq!(b.bids[0].price, 90);
    assert_eq!(b.bids[1].price, 95);
    assert!(b.bids.iter().all(|o| o.is_buy));
    assert!(b.asks.is_empty());
}

#[test]
fn orderbook_keeps_64_bit_values() {
    let body = br#"{"ok": true, "bids": [{"price": 18446744073709551615, "qty": 9007199254740993}],
        "asks": [], "ts": "2016-01-02T03:04:05Z"}"#;
    let b = orderbook_response(body).unwrap();
    assert_eq!(b.bids[0].price, u64::MAX);
    assert_eq!(b.bids[0].qty, 9007199254740993);
}

#[test]
fn orderbook_missing_asks() {
    let body = br#"{"ok": true, "bids": [], "ts": "2016-01-02T03:04:05Z"}"#;
    match orderbook_response(body) {
        Err(StockfighterError::MissingField(f)) => assert_eq!(f, "asks"),
        other => panic!("unexpected {:?}", other),
    }
}

#[test]
fn orderbook_missing_qty() {
    let body = br#"{"ok": true, "bids": [{"price": 1}], "asks": [], "ts": "2016-01-02T03:04:05Z"}"#;
    match orderbook_response(body) {
        Err(StockfighterError::MissingField(f)) => assert_eq!(f, "qty"),
        other => panic!("unexpected {:?}", other),
    }
}

#[test]
fn orderbook_negative_price_wrong_type() {
    let body = br#"{"ok": true, "bids": [{"price": -1, "qty": 1}], "asks": [], "ts": "2016-01-02T03:04:05Z"}"#;
    match orderbook_response(body) {
        Err(StockfighterError::WrongFieldType(f)) => assert_eq!(f, "price"),
        other => panic!("unexpected {:?}", other),
    }
}

#[test]
fn orderbook_bad_timestamp() {
    let body = br#"{"ok": true, "bids": [], "asks": [], "ts": "yesterday"}"#;
    match orderbook_response(body) {
        Err(StockfighterError::InvalidTimestamp(t)) => assert_eq!(t, "yesterday"),
        other => panic!("unexpected {:?}", other),
    }
}

#[test]
fn orderbook_api_error() {
    let e = orderbook_response(br#"{"ok": false, "error": "No such stock"}"#).unwrap_err();
    assert_eq!(api_message(e), "No such stock");
}

#[test]
fn malformed_body() {
    assert!(matches!(heartbeat_response(b"{\"ok\": tru"), Err(StockfighterError::InvalidResponseBody)));
    assert!(matches!(venues_response(b""), Err(StockfighterError::InvalidResponseBody)));
    assert!(matches!(orderbook_response(b"<html>"), Err(StockfighterError::InvalidResponseBody)));
    assert!(decode_body(b"not json").is_err());
}

#[test]
fn decode_body_reads_document() {
    let v = decode_body(br#"{"a": [1, 2]}"#).unwrap();
    assert!(v.is_object());
}

#[test]
fn paths_and_url() {
    let api = StockfighterHttpApi::new("https://api.example.com/ob/api", "KEY");
    assert_eq!(heartbeat_path(), "/heartbeat");
    assert_eq!(venues_path(), "/venues");
    assert_eq!(venue_heartbeat_path("TESTEX"), "/venues/TESTEX/heartbeat");
    assert_eq!(stock_orderbook_path("TESTEX", "FOOBAR"), "/venues/TESTEX/stocks/FOOBAR");
    assert_eq!(api.url("/heartbeat"), "https://api.example.com/ob/api/heartbeat");
    assert_eq!(api.auth_value(), "KEY");
    assert_eq!(AUTH_HEADER, "X-Starfighter-Authorization");
}

#[test]
fn error_messages() {
    assert_eq!(StockfighterError::Api("down".to_string()).message(), "down");
    assert_eq!(StockfighterError::InvalidResponseBody.message(), "Response body invalid");
    assert_eq!(StockfighterError::RequestFailed.message(), "Error sending request");
    assert!(StockfighterError::MissingField("ts".to_string()).message().ends_with("ts"));
}

#[test]
fn venues_list_wrong_type() {
    match venues_response(br#"{"id": true, "venues": 5}"#) {
        Err(StockfighterError::WrongFieldType(f)) => assert_eq!(f, "venues"),
        other => panic!("unexpected {:?}", other),
    }
}

#[test]
fn error_message_texts() {
    assert_eq!(
        StockfighterError::UnexpectedVenueState("paused".to_string()).message(),
        "Unexpected value for venue state: paused"
    );
    assert_eq!(StockfighterError::WrongFieldType("qty".to_string()).message(), "Field has the wrong type: qty");
    assert_eq!(StockfighterError::InvalidTimestamp("x".to_string()).message(), "Invalid timestamp: x");
    assert_eq!(StockfighterError::NotAnObject.message(), "Expected a JSON object");
}
