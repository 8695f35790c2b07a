//! The JSON document model that forecasts are read from.
//!
//! Parsing JSON text is left to `serde_json`; this module declares its types and the few
//! accessors the library walks a document with, each stated over [`JsonView`], the content of a
//! `serde_json::Value` as a mathematical value.
use vstd::prelude::*;

verus! {

#[verifier::external_type_specification]
#[verifier::external_body]
pub struct ExJsonValue(serde_json::Value);

#[verifier::external_type_specification]
#[verifier::external_body]
pub struct ExJsonError(serde_json::Error);

/// The content of a JSON value.
pub enum JsonView {
    Null,
    Bool(bool),
    /// A number: `integer` is its value where it is an integer that fits in an `i64`, and
    /// `float_bits` is the bit pattern of its value as a binary64 float.
    Number { integer: Option<i64>, float_bits: u64 },
    Text(Seq<char>),
    Array(Seq<JsonView>),
    Object(Map<Seq<char>, JsonView>),
}

/// What a `serde_json::Value` holds.
pub uninterp spec fn json_view(v: serde_json::Value) -> JsonView;

/// The document that `serde_json` reads from a text, or `None` where the text is not JSON.
pub uninterp spec fn json_of_text(s: Seq<char>) -> Option<JsonView>;

/// The document that `serde_json` reads from bytes, or `None` where they are not JSON.
pub uninterp spec fn json_of_bytes(b: Seq<u8>) -> Option<JsonView>;

/// The member `key` of an object; `None` for a missing member or a value that is no object.
pub open spec fn member(v: JsonView, key: Seq<char>) -> Option<JsonView> {
    match v {
        JsonView::Object(m) => if m.contains_key(key) {
            Some(m[key])
        } else {
            None
        },
        _ => None,
    }
}

/// Relies on `serde_json::from_str::<Value>`: reads a JSON document from text.
#[verifier::external_body]
pub(crate) fn parse_text(s: &str) -> (r: Result<serde_json::Value, serde_json::Error>)
    ensures
        match r {
            Ok(v) => json_of_text(s@) == Some(json_view(v)),
            Err(_) => json_of_text(s@) is None,
        },
{
    serde_json::from_str(s)
}

/// Relies on `serde_json::from_slice::<Value>`: reads a JSON document from bytes.
#[verifier::external_body]
pub(crate) fn parse_bytes(b: &[u8]) -> (r: Result<serde_json::Value, serde_json::Error>)
    ensures
        match r {
            Ok(v) => json_of_bytes(b@) == Some(json_view(v)),
            Err(_) => json_of_bytes(b@) is None,
        },
{
    serde_json::from_slice(b)
}

/// Relies on `Value::get` with a `&str` index: the member of that name of an object.
#[verifier::external_body]
pub(crate) fn get_member<'a>(v: &'a serde_json::Value, key: &str) -> (r: Option<&'a serde_json::Value>)
    ensures
        match r {
            Some(x) => member(json_view(*v), key@) == Some(json_view(*x)),
            None => member(json_view(*v), key@) is None,
        },
{
    v.get(key)
}

/// Relies on `Value::as_array`: the elements of an array, in order.
#[verifier::external_body]
pub(crate) fn as_elements(v: &serde_json::Value) -> (r: Option<&Vec<serde_json::Value>>)
    ensures
        match json_view(*v) {
            JsonView::Array(s) => r matches Some(a) && a@.len() == s.len() && forall|i: int|
                0 <= i < s.len() ==> #[trigger] json_view(a@[i]) == s[i],
            _ => r is None,
        },
{
    v.as_array()
}

/// Relies on `Value::as_str`: the text of a string value.
#[verifier::external_body]
pub(crate) fn as_text(v: &serde_json::Value) -> (r: Option<&str>)
    ensures
        match json_view(*v) {
            JsonView::Text(t) => r matches Some(x) && x@ == t,
            _ => r is None,
        },
{
    v.as_str()
}

/// Relies on `Value::as_f64`: a number's value as a binary64 float, given as its bit pattern.
#[verifier::external_body]
pub(crate) fn as_float_bits(v: &serde_json::Value) -> (r: Option<u64>)
    ensures
        match json_view(*v) {
            JsonView::Number { float_bits, .. } => r == Some(float_bits),
            _ => r is None,
        },
{
    v.as_f64().map(|x| x.to_bits())
}

/// Relies on `Value::as_i64`: a number's value where it is an integer that fits in an `i64`.
#[verifier::external_body]
pub(crate) fn as_integer(v: &serde_json::Value) -> (r: Option<i64>)
    ensures
        match json_view(*v) {
            JsonView::Number { integer, .. } => r == integer,
            _ => r is None,
        },
{
    v.as_i64()
}

/// Relies on `Value::is_null`.
#[verifier::external_body]
pub(crate) fn is_null(v: &serde_json::Value) -> (r: bool)
    ensures
        r == (json_view(*v) is Null),
{
    v.is_null()
}

} // verus!
