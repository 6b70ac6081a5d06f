//! Loose JSON: documents read from text (the realtime socket's frames, the
//! gateway's error bodies on a refused upgrade) and values built or read
//! in place. What a document holds is decided by `serde_json`; the logic
//! reads the few members it needs.

use vstd::prelude::*;

use serde_json::Value as JsonValue;

verus! {

/// The JSON value `serde_json::from_str` decodes `text` into, or `None`
/// when `text` is not JSON.
pub uninterp spec fn parsed_json(text: Seq<char>) -> Option<JsonValue>;

/// `serde_json::from_str::<Value>`: the decoded document, `None` on a
/// decoding error.
#[verifier::external_body]
pub(crate) fn parse_json(text: &str) -> (r: Option<JsonValue>)
    ensures
        r == parsed_json(text@),
{
    serde_json::from_str::<JsonValue>(text).ok()
}

/// The member `key` of a JSON value: `None` when the value is not an
/// object or has no such member.
pub uninterp spec fn value_member(v: JsonValue, key: Seq<char>) -> Option<JsonValue>;

/// `Value::get` with a string key.
#[verifier::external_body]
pub(crate) fn value_get<'a>(v: &'a JsonValue, key: &str) -> (r: Option<&'a JsonValue>)
    ensures
        match r {
            Some(m) => value_member(*v, key@) == Some(*m),
            None => value_member(*v, key@) is None,
        },
{
    v.get(key)
}

/// The text of a JSON string value; `None` for any other value.
pub uninterp spec fn value_text(v: JsonValue) -> Option<Seq<char>>;

/// `Value::as_str`.
#[verifier::external_body]
pub(crate) fn value_as_str(v: &JsonValue) -> (r: Option<&str>)
    ensures
        match r {
            Some(s) => value_text(*v) == Some(s@),
            None => value_text(*v) is None,
        },
{
    v.as_str()
}

/// Whether a JSON value is `null`.
pub uninterp spec fn value_null(v: JsonValue) -> bool;

/// `Value::is_null`.
#[verifier::external_body]
pub(crate) fn value_is_null(v: &JsonValue) -> (r: bool)
    ensures
        r == value_null(*v),
{
    v.is_null()
}

/// What `serde_json::Value::String(s)` is for the text `s`.
pub uninterp spec fn string_json(s: Seq<char>) -> JsonValue;

/// `serde_json::Value::String`: the JSON string holding `s`.
#[verifier::external_body]
pub(crate) fn json_string(s: String) -> (v: JsonValue)
    ensures
        v == string_json(s@),
{
    JsonValue::String(s)
}

/// What `serde_json::Value::Bool(b)` is.
pub uninterp spec fn bool_json(b: bool) -> JsonValue;

/// `serde_json::Value::Bool`: the JSON boolean `b`.
#[verifier::external_body]
pub(crate) fn json_bool(b: bool) -> (v: JsonValue)
    ensures
        v == bool_json(b),
{
    JsonValue::Bool(b)
}

/// What `serde_json::Value::Object` is for these members, given in this
/// order.
pub uninterp spec fn object_json(members: Seq<(Seq<char>, JsonValue)>) -> JsonValue;

/// The members of an object as text keys and values.
pub open spec fn members_view(members: Seq<(String, JsonValue)>) -> Seq<(Seq<char>, JsonValue)> {
    members.map_values(|m: (String, JsonValue)| (m.0@, m.1))
}

/// `serde_json::Value::Object` of the members collected into a
/// `serde_json::Map`.
#[verifier::external_body]
pub(crate) fn json_object(members: Vec<(String, JsonValue)>) -> (v: JsonValue)
    ensures
        v == object_json(members_view(members@)),
{
    JsonValue::Object(members.into_iter().collect())
}

/// What `serde_json::Value::Array` is for these items.
pub uninterp spec fn array_json(items: Seq<JsonValue>) -> JsonValue;

/// `serde_json::Value::Array`: the JSON array of `items`.
#[verifier::external_body]
pub(crate) fn json_array(items: Vec<JsonValue>) -> (v: JsonValue)
    ensures
        v == array_json(items@),
{
    JsonValue::Array(items)
}

/// What `serde_json::Value::from(n)` is for an unsigned number.
pub uninterp spec fn u32_json(n: u32) -> JsonValue;

/// `serde_json::Value::from` on a `u32`: the JSON number `n`.
#[verifier::external_body]
pub(crate) fn json_u32(n: u32) -> (v: JsonValue)
    ensures
        v == u32_json(n),
{
    JsonValue::from(n)
}

/// The compact JSON text `serde_json::to_string` writes for `v`.
pub uninterp spec fn value_json(v: JsonValue) -> Seq<char>;

/// `serde_json::to_string` on a `Value`: its compact JSON text. A `Value`
/// has only string keys and is written into a `Vec<u8>`, so serialising it
/// cannot fail and the error arm is never taken.
#[verifier::external_body]
pub(crate) fn value_to_json(v: &JsonValue) -> (r: String)
    ensures
        r@ == value_json(*v),
{
    match serde_json::to_string(v) {
        Ok(t) => t,
        Err(_) => String::new(),
    }
}

/// The string member `key` of a JSON value: `None` when the value is not
/// an object, has no such member, or the member is not a string.
pub open spec fn str_member(v: JsonValue, key: Seq<char>) -> Option<Seq<char>> {
    match value_member(v, key) {
        Some(m) => value_text(m),
        None => None,
    }
}

/// The string member `key` of the JSON document `text`: `None` when `text`
/// is not JSON, or under the conditions of [`str_member`].
pub open spec fn member_str(text: Seq<char>, key: Seq<char>) -> Option<Seq<char>> {
    match parsed_json(text) {
        Some(v) => str_member(v, key),
        None => None,
    }
}

/// The string member `key` of the member `outer` of the JSON document
/// `text`.
pub open spec fn nested_str(text: Seq<char>, outer: Seq<char>, key: Seq<char>) -> Option<
    Seq<char>,
> {
    match parsed_json(text) {
        Some(v) => match value_member(v, outer) {
            Some(o) => str_member(o, key),
            None => None,
        },
        None => None,
    }
}

/// The text view of a borrowed optional string.
pub open spec fn opt_text(o: Option<&str>) -> Option<Seq<char>> {
    match o {
        Some(s) => Some(s@),
        None => None,
    }
}

/// The text view of an optional string.
pub open spec fn opt_string(o: Option<String>) -> Option<Seq<char>> {
    match o {
        Some(s) => Some(s@),
        None => None,
    }
}

/// The string member `key` of a JSON value.
pub fn member_text<'a>(v: &'a JsonValue, key: &str) -> (r: Option<&'a str>)
    ensures
        opt_text(r) == str_member(*v, key@),
{
    match value_get(v, key) {
        Some(m) => value_as_str(m),
        None => None,
    }
}

/// The string member `key` of the JSON document `text`.
pub fn json_member_str(text: &str, key: &str) -> (r: Option<String>)
    ensures
        opt_string(r) == member_str(text@, key@),
{
    match parse_json(text) {
        Some(v) => match member_text(&v, key) {
            Some(s) => Some(s.to_owned()),
            None => None,
        },
        None => None,
    }
}

/// The string member `key` of the member `outer` of the JSON document
/// `text`.
pub fn json_nested_str(text: &str, outer: &str, key: &str) -> (r: Option<String>)
    ensures
        opt_string(r) == nested_str(text@, outer@, key@),
{
    match parse_json(text) {
        Some(v) => match value_get(&v, outer) {
            Some(o) => match member_text(o, key) {
                Some(s) => Some(s.to_owned()),
                None => None,
            },
            None => None,
        },
        None => None,
    }
}

/// A member's text, or nothing when it is missing.
pub open spec fn or_nothing(o: Option<Seq<char>>) -> Seq<char> {
    match o {
        Some(s) => s,
        None => Seq::empty(),
    }
}

} // verus!
