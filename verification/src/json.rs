//! The mathematical content of JSON values, and the calls into `serde_json`
//! that the rest of the crate is verified against.
//!
//! A `serde_json::Value` is opaque to the verifier. Everything the crate
//! states about one is stated about [`json_of`] of it, a [`Json`]. The
//! functions marked `external_body` below are the only places where
//! `serde_json` is called; their contracts, and that of `Value::clone`, are
//! taken from its documentation and are not proved.

use vstd::prelude::*;

verus! {

/// A JSON number, as `serde_json` keeps it.
pub enum JsonNumber {
    /// A whole number between -2^63 and 2^64 - 1.
    Integer(int),
    /// Any other number, told apart by the 64 bits it is stored in.
    Real(u64),
}

/// What a JSON value holds.
pub enum Json {
    Null,
    Bool(bool),
    Number(JsonNumber),
    Text(Seq<char>),
    Array(Seq<Json>),
    Object(Map<Seq<char>, Json>),
}

/// `serde_json::Value`, whose inside the verifier does not see.
#[verifier::external_type_specification]
#[verifier::external_body]
pub struct ExValue(serde_json::Value);

/// `serde_json::Error`, carried from the call that failed to where it is
/// mapped to an error of this crate.
#[verifier::external_type_specification]
#[verifier::external_body]
pub struct ExError(serde_json::Error);

/// The content of a `serde_json::Value`.
pub uninterp spec fn json_of(value: serde_json::Value) -> Json;

/// The value that `serde_json::from_str` reads from a text, if it reads one.
pub uninterp spec fn json_parse(text: Seq<char>) -> Option<Json>;

/// The compact text that `serde_json::to_string` writes for a value, if it
/// writes one.
pub uninterp spec fn json_text(json: Json) -> Option<Seq<char>>;

/// The members of an object; no members for any other value.
pub open spec fn json_members(json: Json) -> Map<Seq<char>, Json> {
    match json {
        Json::Object(members) => members,
        _ => Map::empty(),
    }
}

/// The member of an object under a key, if `json` is an object that has it.
pub open spec fn json_member(json: Json, key: Seq<char>) -> Option<Json> {
    match json {
        Json::Object(members) => if members.contains_key(key) {
            Some(members[key])
        } else {
            None
        },
        _ => None,
    }
}

/// The contents of a sequence of values, item by item.
pub open spec fn json_items(values: Seq<serde_json::Value>) -> Seq<Json> {
    Seq::new(values.len(), |i: int| json_of(values[i]))
}

/// The integer that a JSON value holds, if it holds one.
pub open spec fn json_integer(json: Json) -> Option<int> {
    match json {
        Json::Number(JsonNumber::Integer(n)) => Some(n),
        _ => None,
    }
}

/// `serde_json::from_str::<Value>`: reading the same text gives the same
/// outcome, a value with the content [`json_parse`] names or an error.
#[verifier::external_body]
pub(crate) fn parse_value(text: &str) -> (r: Result<serde_json::Value, serde_json::Error>)
    ensures
        match r {
            Ok(value) => json_parse(text@) == Some(json_of(value)),
            Err(_) => json_parse(text@) is None,
        },
{
    serde_json::from_str::<serde_json::Value>(text)
}

/// `serde_json::to_string` on a `Value`: writing values of the same content
/// gives the same outcome, the text [`json_text`] names or an error.
#[verifier::external_body]
pub(crate) fn write_value(value: &serde_json::Value) -> (r: Result<String, serde_json::Error>)
    ensures
        match r {
            Ok(text) => json_text(json_of(*value)) == Some(text@),
            Err(_) => json_text(json_of(*value)) is None,
        },
{
    serde_json::to_string(value)
}

/// `Value::get` with a string key: the member under `key` when the value is
/// an object that has one, and nothing otherwise.
#[verifier::external_body]
pub(crate) fn value_get<'a>(value: &'a serde_json::Value, key: &str) -> (r: Option<
    &'a serde_json::Value,
>)
    ensures
        match r {
            Some(member) => json_member(json_of(*value), key@) == Some(json_of(*member)),
            None => json_member(json_of(*value), key@) is None,
        },
{
    value.get(key)
}

/// `Value::as_str`: the text of a string value, and nothing for any other.
#[verifier::external_body]
pub(crate) fn value_as_str<'a>(value: &'a serde_json::Value) -> (r: Option<&'a str>)
    ensures
        match r {
            Some(text) => json_of(*value) == Json::Text(text@),
            None => !(json_of(*value) is Text),
        },
{
    value.as_str()
}

/// `Value::as_bool`: the flag of a boolean value, and nothing for any other.
#[verifier::external_body]
pub(crate) fn value_as_bool(value: &serde_json::Value) -> (r: Option<bool>)
    ensures
        match r {
            Some(flag) => json_of(*value) == Json::Bool(flag),
            None => !(json_of(*value) is Bool),
        },
{
    value.as_bool()
}

/// `Value::as_u64`: the number of a value that holds a whole number of zero
/// or more, and nothing for any other.
#[verifier::external_body]
pub(crate) fn value_as_u64(value: &serde_json::Value) -> (r: Option<u64>)
    ensures
        match r {
            Some(n) => json_integer(json_of(*value)) == Some(n as int),
            None => !(json_integer(json_of(*value)) matches Some(n) && n >= 0),
        },
{
    value.as_u64()
}

/// `Value::as_i64`: the number of a value that holds a whole number of at
/// most 2^63 - 1, and nothing for any other.
#[verifier::external_body]
pub(crate) fn value_as_i64(value: &serde_json::Value) -> (r: Option<i64>)
    ensures
        match r {
            Some(n) => json_integer(json_of(*value)) == Some(n as int),
            None => !(json_integer(json_of(*value)) matches Some(n) && n <= i64::MAX),
        },
{
    value.as_i64()
}

/// `Value::as_array`: the items of an array value, and nothing for any other.
#[verifier::external_body]
pub(crate) fn value_as_array<'a>(value: &'a serde_json::Value) -> (r: Option<
    &'a Vec<serde_json::Value>,
>)
    ensures
        match r {
            Some(items) => json_of(*value) == Json::Array(json_items(items@)),
            None => !(json_of(*value) is Array),
        },
{
    value.as_array()
}

/// `Value::is_null`.
#[verifier::external_body]
pub(crate) fn value_is_null(value: &serde_json::Value) -> (r: bool)
    ensures
        r == (json_of(*value) is Null),
{
    value.is_null()
}

/// `Value::is_object`.
#[verifier::external_body]
pub(crate) fn value_is_object(value: &serde_json::Value) -> (r: bool)
    ensures
        r == (json_of(*value) is Object),
{
    value.is_object()
}

/// `Value::clone`: a value of the same content.
pub assume_specification[ <serde_json::Value as Clone>::clone ](value: &serde_json::Value) -> (r:
    serde_json::Value)
    ensures
        json_of(r) == json_of(*value),
;

/// The variant `Value::Null`.
#[verifier::external_body]
pub(crate) fn value_null() -> (r: serde_json::Value)
    ensures
        json_of(r) == Json::Null,
{
    serde_json::Value::Null
}

/// The variant `Value::Bool`.
#[verifier::external_body]
pub(crate) fn value_bool(flag: bool) -> (r: serde_json::Value)
    ensures
        json_of(r) == Json::Bool(flag),
{
    serde_json::Value::Bool(flag)
}

/// `Value::from` on an `i64`: the number with that value.
#[verifier::external_body]
pub(crate) fn value_integer(n: i64) -> (r: serde_json::Value)
    ensures
        json_of(r) == Json::Number(JsonNumber::Integer(n as int)),
{
    serde_json::Value::from(n)
}

/// `Value::from` on a `&str`: the string with that text.
#[verifier::external_body]
pub(crate) fn value_text(text: &str) -> (r: serde_json::Value)
    ensures
        json_of(r) == Json::Text(text@),
{
    serde_json::Value::from(text)
}

/// The variant `Value::Array`: the array of the given items, in their order.
#[verifier::external_body]
pub(crate) fn value_array(items: Vec<serde_json::Value>) -> (r: serde_json::Value)
    ensures
        json_of(r) == Json::Array(json_items(items@)),
{
    serde_json::Value::Array(items)
}

/// `Map::new` inside `Value::Object`: the object without members.
#[verifier::external_body]
pub(crate) fn value_empty_object() -> (r: serde_json::Value)
    ensures
        json_of(r) == Json::Object(Map::empty()),
{
    serde_json::Value::Object(serde_json::Map::new())
}

/// `Map::insert` on the members of an object: the member under `key` is
/// `member` afterwards, whether or not the key was there, and the other
/// members stay.
#[verifier::external_body]
pub(crate) fn object_insert(object: &mut serde_json::Value, key: &str, member: serde_json::Value)
    requires
        json_of(*old(object)) is Object,
    ensures
        json_of(*final(object)) == Json::Object(
            json_members(json_of(*old(object))).insert(key@, json_of(member)),
        ),
{
    if let serde_json::Value::Object(members) = object {
        members.insert(key.to_string(), member);
    }
}

} // verus!
