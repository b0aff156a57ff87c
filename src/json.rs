//! A mathematical model of JSON documents, and the serde_json calls that the
//! decoders rely on.
use vstd::prelude::*;

verus! {

/// A JSON number as serde_json holds it.
pub enum JsonNumber {
    /// A non-negative integer that fits in 64 bits.
    Unsigned(u64),
    /// A negative integer that fits in 64 bits.
    Negative(i64),
    /// Any other number (a fraction, an exponent, or an integer out of range).
    Real,
}

/// A JSON document.
pub enum JsonDoc {
    Null,
    Bool(bool),
    Number(JsonNumber),
    Str(Seq<char>),
    Array(Seq<JsonDoc>),
    Object(Map<Seq<char>, JsonDoc>),
}

#[verifier::external_type_specification]
#[verifier::external_body]
pub struct ExValue(serde_json::Value);

#[verifier::external_type_specification]
#[verifier::external_body]
pub struct ExJsonError(serde_json::Error);

/// The document that a `serde_json::Value` holds.
pub uninterp spec fn json_of(v: serde_json::Value) -> JsonDoc;

/// The document that serde_json reads from some bytes, if they are valid JSON.
pub uninterp spec fn json_text(b: Seq<u8>) -> Option<JsonDoc>;

/// The member `key` of `d`, when `d` is an object that has it.
pub open spec fn member(d: JsonDoc, key: Seq<char>) -> Option<JsonDoc> {
    match d {
        JsonDoc::Object(m) => if m.contains_key(key) {
            Some(m[key])
        } else {
            None
        },
        _ => None,
    }
}

/// Relies on serde_json::from_slice into a `Value`: the document the bytes hold,
/// or an error where they are not valid JSON.
#[verifier::external_body]
pub(crate) fn parse_value(b: &[u8]) -> (r: Result<serde_json::Value, serde_json::Error>)
    ensures
        r is Ok <==> json_text(b@) is Some,
        r is Ok ==> json_of(r->Ok_0) == json_text(b@)->0,
{
    serde_json::from_slice(b)
}

/// Relies on serde_json::Value::get with a `&str` key: the member of an object,
/// `None` for a missing key or a value that is no object.
#[verifier::external_body]
pub(crate) fn get_member<'a>(v: &'a serde_json::Value, key: &str) -> (r: Option<&'a serde_json::Value>)
    ensures
        r is Some <==> member(json_of(*v), key@) is Some,
        r is Some ==> json_of(*r->0) == member(json_of(*v), key@)->0,
{
    v.get(key)
}

/// Relies on serde_json::Value::is_object.
#[verifier::external_body]
pub(crate) fn is_object(v: &serde_json::Value) -> (r: bool)
    ensures
        r == (json_of(*v) is Object),
{
    v.is_object()
}

/// Relies on serde_json::Value::as_bool: the boolean a `Bool` holds.
#[verifier::external_body]
pub(crate) fn as_bool(v: &serde_json::Value) -> (r: Option<bool>)
    ensures
        r == (match json_of(*v) {
            JsonDoc::Bool(b) => Some(b),
            _ => None,
        }),
{
    v.as_bool()
}

/// Relies on serde_json::Value::as_u64: the integer a non-negative integer
/// number holds.
#[verifier::external_body]
pub(crate) fn as_u64(v: &serde_json::Value) -> (r: Option<u64>)
    ensures
        r == (match json_of(*v) {
            JsonDoc::Number(JsonNumber::Unsigned(n)) => Some(n),
            _ => None,
        }),
{
    v.as_u64()
}

/// Relies on serde_json::Value::as_str: the text a `String` holds.
#[verifier::external_body]
pub(crate) fn as_str(v: &serde_json::Value) -> (r: Option<&str>)
    ensures
        r is Some <==> json_of(*v) is Str,
        r is Some ==> r->0@ == json_of(*v)->Str_0,
{
    v.as_str()
}

/// Relies on serde_json::Value::as_array: the elements an `Array` holds, in order.
#[verifier::external_body]
pub(crate) fn as_array(v: &serde_json::Value) -> (r: Option<&Vec<serde_json::Value>>)
    ensures
        r is Some <==> json_of(*v) is Array,
        r is Some ==> r->0@.len() == json_of(*v)->Array_0.len(),
        r is Some ==> forall|i: int|
            0 <= i < r->0@.len() ==> #[trigger] json_of(r->0@[i]) == json_of(*v)->Array_0[i],
{
    v.as_array()
}

} // verus!
