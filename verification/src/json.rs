//! JSON values, as `serde_json` holds them, and what this library reads of
//! them.
//!
//! Verus sees nothing inside a `serde_json::Value`. The contracts in this
//! file say, over the tree `Json`, what the few functions of `serde_json`
//! that the decoder calls return; Verus takes them on trust.

use serde_json::Value;
use vstd::prelude::*;

verus! {

/// A JSON value as a tree.
pub ghost enum Json {
    Null,
    Bool(bool),
    /// A number: the integer where `serde_json` holds it as one, and the way
    /// the number is written.
    Number { integer: Option<int>, written: Seq<char> },
    String(Seq<char>),
    Array(Seq<Json>),
    Object(Map<Seq<char>, Json>),
}

/// `serde_json::Value`: a JSON value. Verus sees nothing inside it.
#[verifier::external_type_specification]
#[verifier::external_body]
pub struct ExValue(serde_json::Value);

/// `serde_json::Error`: why a text was not accepted. Nothing is read of it.
#[verifier::external_type_specification]
#[verifier::external_body]
pub struct ExJsonError(serde_json::Error);

/// The tree that a `serde_json::Value` holds.
pub uninterp spec fn json_of(value: Value) -> Json;

/// The tree that `serde_json::from_slice` reads out of a text, where it
/// accepts the text.
pub uninterp spec fn parsed_json(text: Seq<u8>) -> Option<Json>;

/// The compact text that `serde_json` writes for a tree.
pub uninterp spec fn json_text(json: Json) -> Seq<char>;

/// The trees of a list of values.
pub open spec fn jsons_of(values: Seq<Value>) -> Seq<Json> {
    values.map_values(|value: Value| json_of(value))
}

/// The member of an object under a key; none where the value is no object or
/// has no such member.
pub open spec fn member_of(json: Json, key: Seq<char>) -> Option<Json> {
    match json {
        Json::Object(members) => if members.contains_key(key) {
            Some(members[key])
        } else {
            None
        },
        _ => None,
    }
}

/// The integer that a value holds, where it is an integer that fits 64 bits
/// with a sign.
pub open spec fn integer_of(json: Json) -> Option<i64> {
    match json {
        Json::Number { integer: Some(n), .. } => if i64::MIN <= n <= i64::MAX {
            Some(n as i64)
        } else {
            None
        },
        _ => None,
    }
}

/// Calls `serde_json::from_slice` for a `Value`. The contract names what it
/// returns: the tree of the value where the text is accepted, and nothing
/// where it is not.
#[verifier::external_body]
pub(crate) fn parse_value(text: &[u8]) -> (res: Result<Value, serde_json::Error>)
    ensures
        match res {
            Ok(value) => parsed_json(text@) == Some(json_of(value)),
            Err(_) => parsed_json(text@).is_none(),
        },
{
    serde_json::from_slice::<Value>(text)
}

/// Calls `Value::get` with a string: the member under `key` where the value
/// is an object that has one, and nothing else.
#[verifier::external_body]
pub(crate) fn member<'a>(value: &'a Value, key: &str) -> (res: Option<&'a Value>)
    ensures
        match res {
            Some(found) => member_of(json_of(*value), key@) == Some(json_of(*found)),
            None => member_of(json_of(*value), key@).is_none(),
        },
{
    value.get(key)
}

/// Calls `Value::is_null`: whether the value is `null`.
#[verifier::external_body]
pub(crate) fn is_null(value: &Value) -> (res: bool)
    ensures
        res == (json_of(*value) is Null),
{
    value.is_null()
}

/// Calls `Value::is_object`: whether the value is an object.
#[verifier::external_body]
pub(crate) fn is_object(value: &Value) -> (res: bool)
    ensures
        res == (json_of(*value) is Object),
{
    value.is_object()
}

/// Calls `Value::as_str`: the text of a string, and nothing for any other
/// value.
#[verifier::external_body]
pub(crate) fn as_text<'a>(value: &'a Value) -> (res: Option<&'a str>)
    ensures
        match res {
            Some(text) => json_of(*value) == Json::String(text@),
            None => !(json_of(*value) is String),
        },
{
    value.as_str()
}

/// Calls `Value::as_array`: the items of an array, in their order, and
/// nothing for any other value.
#[verifier::external_body]
pub(crate) fn as_items<'a>(value: &'a Value) -> (res: Option<&'a Vec<Value>>)
    ensures
        match res {
            Some(items) => json_of(*value) == Json::Array(jsons_of(items@)),
            None => !(json_of(*value) is Array),
        },
{
    value.as_array()
}

/// Calls `Value::as_i64`: the number where the value is an integer that fits
/// `i64`, and nothing for any other value.
#[verifier::external_body]
pub(crate) fn as_integer(value: &Value) -> (res: Option<i64>)
    ensures
        res == integer_of(json_of(*value)),
{
    value.as_i64()
}

/// Calls `to_string` on a `Value`, which writes it through its `Display`:
/// the compact JSON text of the value.
#[verifier::external_body]
pub(crate) fn to_text(value: &Value) -> (res: String)
    ensures
        res@ == json_text(json_of(*value)),
{
    value.to_string()
}

} // verus!
