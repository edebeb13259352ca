//! A JSON document as the dashboard reads it, and member access that
//! follows `serde_json`'s indexing: a missing member, or a member of a
//! non-object, reads as absent.

use vstd::prelude::*;

use crate::order::text_eq;

verus! {

/// A parsed JSON value. A number keeps what the dashboard reads of it: its
/// value where it is a non-negative integer that fits in `u64`.
#[derive(Debug)]
pub enum JsonValue {
    Null,
    Bool(bool),
    Number { as_u64: Option<u64> },
    Str(String),
    Array(Vec<JsonValue>),
    Object(Vec<(String, JsonValue)>),
}

/// `serde_json`'s own document type, carried only into the conversion below.
#[verifier::external_type_specification]
#[verifier::external_body]
pub struct ExValue(serde_json::Value);

/// The document that `serde_json` parses from `bytes`, or `None` where the
/// bytes are not JSON.
pub uninterp spec fn json_parsed(bytes: Seq<u8>) -> Option<JsonValue>;

/// Converts a `serde_json` value variant by variant.
#[verifier::external_body]
fn json_of_serde(v: serde_json::Value) -> JsonValue {
    match v {
        serde_json::Value::Null => JsonValue::Null,
        serde_json::Value::Bool(b) => JsonValue::Bool(b),
        serde_json::Value::Number(n) => JsonValue::Number { as_u64: n.as_u64() },
        serde_json::Value::String(s) => JsonValue::Str(s),
        serde_json::Value::Array(a) => JsonValue::Array(a.into_iter().map(json_of_serde).collect()),
        serde_json::Value::Object(m) => JsonValue::Object(
            m.into_iter().map(|(k, x)| (k, json_of_serde(x))).collect(),
        ),
    }
}

/// Relies on `serde_json::from_slice` into `serde_json::Value`: the result
/// depends on the bytes alone.
#[verifier::external_body]
pub(crate) fn parse_json(bytes: &[u8]) -> (r: Option<JsonValue>)
    ensures
        r == json_parsed(bytes@),
{
    serde_json::from_slice::<serde_json::Value>(bytes).ok().map(json_of_serde)
}

/// The first value stored under `key` among `entries`, from position `i` on.
pub open spec fn lookup_from(entries: Seq<(String, JsonValue)>, key: Seq<char>, i: int) -> Option<
    JsonValue,
>
    decreases entries.len() - i,
{
    if i < 0 || i >= entries.len() {
        None
    } else if entries[i].0@ == key {
        Some(entries[i].1)
    } else {
        lookup_from(entries, key, i + 1)
    }
}

/// The member `key` of `v`, where `v` is an object that has one.
pub open spec fn member(v: Option<JsonValue>, key: Seq<char>) -> Option<JsonValue> {
    match v {
        Some(JsonValue::Object(entries)) => lookup_from(entries@, key, 0),
        _ => None,
    }
}

/// The text of `v`, where `v` is a string.
pub open spec fn str_of(v: Option<JsonValue>) -> Option<Seq<char>> {
    match v {
        Some(JsonValue::Str(s)) => Some(s@),
        _ => None,
    }
}

/// The value of `v`, where `v` is a number that fits in `u64`.
pub open spec fn u64_of(v: Option<JsonValue>) -> Option<u64> {
    match v {
        Some(JsonValue::Number { as_u64 }) => as_u64,
        _ => None,
    }
}

/// The value behind an optional reference.
pub open spec fn opt_val(v: Option<&JsonValue>) -> Option<JsonValue> {
    match v {
        Some(x) => Some(*x),
        None => None,
    }
}

/// The member `key` of `v`, or `None` where `v` is no object or has no such
/// member.
pub fn get_member<'a>(v: Option<&'a JsonValue>, key: &str) -> (r: Option<&'a JsonValue>)
    ensures
        r matches Some(x) ==> member(opt_val(v), key@) == Some(*x),
        r is None ==> member(opt_val(v), key@) is None,
{
    match v {
        Some(JsonValue::Object(entries)) => {
            let mut i: usize = 0;
            while i < entries.len()
                invariant
                    i <= entries@.len(),
                    lookup_from(entries@, key@, i as int) == lookup_from(entries@, key@, 0),
                    member(opt_val(v), key@) == lookup_from(entries@, key@, 0),
                decreases entries@.len() - i,
            {
                if text_eq(entries[i].0.as_str(), key) {
                    assert(lookup_from(entries@, key@, i as int) == Some(entries@[i as int].1));
                    return Some(&entries[i].1);
                }
                i = i + 1;
            }
            None
        },
        _ => None,
    }
}

/// The text of `v`, where `v` is a string.
pub fn get_str<'a>(v: Option<&'a JsonValue>) -> (r: Option<&'a String>)
    ensures
        r matches Some(s) ==> str_of(opt_val(v)) == Some(s@),
        r is None ==> str_of(opt_val(v)) is None,
{
    match v {
        Some(JsonValue::Str(s)) => Some(s),
        _ => None,
    }
}

/// The value of `v`, where `v` is a number that fits in `u64`.
pub fn get_u64(v: Option<&JsonValue>) -> (r: Option<u64>)
    ensures
        r == u64_of(opt_val(v)),
{
    match v {
        Some(JsonValue::Number { as_u64 }) => *as_u64,
        _ => None,
    }
}

} // verus!
