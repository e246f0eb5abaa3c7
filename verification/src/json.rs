//! JSON values, as far as the record of a checkpoint needs them.
//!
//! The values are those of `serde_json`. This file says what the library
//! takes for granted of that crate; nothing else in the library does.

use crate::failure::Failure;
use vstd::prelude::*;

verus! {

/// A JSON value as a mathematical value. A number stands as the text that
/// prints it.
pub ghost enum Json {
    Null,
    Bool(bool),
    Number(Seq<char>),
    Text(Seq<char>),
    Array(Seq<Json>),
    Object(Map<Seq<char>, Json>),
}

/// The members of an object; no members for any other value.
pub open spec fn members(json: Json) -> Map<Seq<char>, Json> {
    match json {
        Json::Object(members) => members,
        _ => Map::empty(),
    }
}

/// `serde_json::Value`: a JSON value in memory.
#[verifier::external_type_specification]
#[verifier::external_body]
pub struct ExValue(serde_json::Value);

/// The JSON value that a `serde_json::Value` holds.
pub uninterp spec fn json_of(value: serde_json::Value) -> Json;

/// What `serde_json::from_str` reads from a text: the value that the text
/// denotes, or `None` where it refuses the text.
pub uninterp spec fn json_parsed(text: Seq<char>) -> Option<Json>;

/// What `serde_json::to_string_pretty` gives for a value: the text that it
/// prints, or `None` where it fails.
pub uninterp spec fn json_pretty(json: Json) -> Option<Seq<char>>;

/// What `serde_json::to_string` gives for a value: the text that it prints,
/// or `None` where it fails.
pub uninterp spec fn json_compact(json: Json) -> Option<Seq<char>>;

/// Calls `serde_json::from_str` for a `serde_json::Value`. The result is
/// the value that the text denotes, or the reason why the text was refused.
#[verifier::external_body]
pub(crate) fn parse(text: &str) -> (r: Result<serde_json::Value, Failure>)
    ensures
        match r {
            Ok(value) => json_parsed(text@) == Some(json_of(value)),
            Err(_) => json_parsed(text@) is None,
        },
{
    serde_json::from_str::<serde_json::Value>(text).map_err(
        |e| Failure { message: e.to_string(), causes: Vec::new() },
    )
}

/// Calls `serde_json::to_string_pretty`. What it gives depends on the value
/// alone: the indented print of the value, or the reason why it failed.
#[verifier::external_body]
pub(crate) fn pretty(value: &serde_json::Value) -> (r: Result<String, Failure>)
    ensures
        match r {
            Ok(text) => json_pretty(json_of(*value)) == Some(text@),
            Err(_) => json_pretty(json_of(*value)) is None,
        },
{
    serde_json::to_string_pretty(value).map_err(
        |e| Failure { message: e.to_string(), causes: Vec::new() },
    )
}

/// Calls `serde_json::to_string`. What it gives depends on the value alone:
/// the print of the value on one line, or the reason why it failed.
#[verifier::external_body]
pub(crate) fn compact(value: &serde_json::Value) -> (r: Result<String, Failure>)
    ensures
        match r {
            Ok(text) => json_compact(json_of(*value)) == Some(text@),
            Err(_) => json_compact(json_of(*value)) is None,
        },
{
    serde_json::to_string(value).map_err(
        |e| Failure { message: e.to_string(), causes: Vec::new() },
    )
}

/// Calls `serde_json::Value::get` with a key, and copies what it finds: the
/// member of that name where the value is an object that has one.
#[verifier::external_body]
pub(crate) fn member(value: &serde_json::Value, key: &str) -> (r: Option<serde_json::Value>)
    ensures
        match r {
            Some(found) => members(json_of(*value)).contains_key(key@) && json_of(found)
                == members(json_of(*value))[key@],
            None => !members(json_of(*value)).contains_key(key@),
        },
{
    value.get(key).cloned()
}

/// Calls `serde_json::Value::as_str`, and copies what it finds: the text
/// where the value is a string.
#[verifier::external_body]
pub(crate) fn text_of(value: &serde_json::Value) -> (r: Option<String>)
    ensures
        match r {
            Some(text) => json_of(*value) == Json::Text(text@),
            None => !(json_of(*value) is Text),
        },
{
    value.as_str().map(|text| text.to_string())
}

/// Calls `serde_json::Value::is_null`.
#[verifier::external_body]
pub(crate) fn is_null(value: &serde_json::Value) -> (r: bool)
    ensures
        r == (json_of(*value) is Null),
{
    value.is_null()
}

/// Calls `serde_json::Value::from` with an optional text: a string for a
/// text, null for none.
#[verifier::external_body]
pub(crate) fn text_or_null(text: Option<&str>) -> (r: serde_json::Value)
    ensures
        json_of(r) == match text {
            Some(text) => Json::Text(text@),
            None => Json::Null,
        },
{
    serde_json::Value::from(text)
}

/// Assigns through the index operator of `serde_json::Value` with a key.
/// On an object it sets the member of that name; null becomes an object
/// with that one member. On any other value the operator panics.
#[verifier::external_body]
pub(crate) fn set_member(object: &mut serde_json::Value, key: &str, member: serde_json::Value)
    requires
        json_of(*old(object)) is Null || json_of(*old(object)) is Object,
    ensures
        json_of(*final(object)) == Json::Object(
            members(json_of(*old(object))).insert(key@, json_of(member)),
        ),
{
    object[key] = member;
}

} // verus!
