//! JSON values, and the calls into `serde_json` that read and write them.

use serde_json::Error as JsonError;
use serde_json::Value;
use vstd::prelude::*;

verus! {

/// What a JSON value is. A number is kept by the text that it prints as.
#[verifier::ext_equal]
pub enum Json {
    Null,
    Bool(bool),
    Number(Seq<char>),
    String(Seq<char>),
    Array(Seq<Json>),
    Object(Map<Seq<char>, Json>),
}

/// `serde_json::Value`.
#[verifier::external_type_specification]
#[verifier::external_body]
pub struct ExValue(Value);

/// `serde_json::Error`.
#[verifier::external_type_specification]
#[verifier::external_body]
pub struct ExJsonError(JsonError);

/// What a `serde_json::Value` holds.
pub uninterp spec fn json(value: Value) -> Json;

/// What `serde_json::from_str` reads from a text, or `None` where it refuses it.
pub uninterp spec fn parsed(text: Seq<char>) -> Option<Json>;

/// What `serde_json::to_string` writes for a value. It writes the members of an object in
/// the order of their keys, so that the text depends on what the value holds alone.
pub uninterp spec fn printed(value: Json) -> Seq<char>;

/// What a list of values holds.
pub open spec fn jsons(values: Seq<Value>) -> Seq<Json> {
    values.map_values(|value: Value| json(value))
}

/// The item `index` of an array; `Null` where there is none.
pub open spec fn item(value: Json, index: int) -> Json {
    match value {
        Json::Array(items) if 0 <= index < items.len() => items[index],
        _ => Json::Null,
    }
}

/// The text of a string.
pub open spec fn as_text(value: Json) -> Option<Seq<char>> {
    match value {
        Json::String(text) => Some(text),
        _ => None,
    }
}

/// Whether a value is an object made of the given entries: it has a member for each key, and
/// each member has a value that is given with its key.
pub open spec fn is_object_of(value: Json, entries: Seq<(String, Value)>) -> bool {
    &&& value matches Json::Object(members)
    &&& forall|i: int|
        0 <= i < entries.len() ==> members.dom().contains((#[trigger] entries[i]).0@)
    &&& forall|key: Seq<char>| #[trigger]
        members.dom().contains(key) ==> exists|i: int|
            0 <= i < entries.len() && (#[trigger] entries[i]).0@ == key && members[key] == json(
                entries[i].1,
            )
}

/// The one key that `serde_json::from_str` does not take for the name of a member where it
/// comes first in an object: there it stands for a text that holds JSON itself.
pub open spec fn raw_key() -> Seq<char> {
    "$serde_json::private::RawValue"@
}

/// The order of texts, by their characters: where two first differ, one has the smaller
/// character or has come to its end.
pub open spec fn comes_before(a: Seq<char>, b: Seq<char>) -> bool {
    exists|i: int|
        0 <= i < b.len() && i <= a.len() && #[trigger] a.take(i) == b.take(i) && (i == a.len()
            || (a[i] as u32) < (b[i] as u32))
}

/// Whether that key is the first one of an object that is written in the order of its keys.
pub open spec fn raw_key_first(entries: Map<Seq<char>, Json>) -> bool {
    entries.dom().contains(raw_key()) && !exists|key: Seq<char>| #[trigger]
        entries.dom().contains(key) && comes_before(key, raw_key())
}

/// A value without fractions, without an object that has that key first, and nested at most
/// `depth` deep: one that a reader gets back as it was written.
pub open spec fn reads_back(value: Json, depth: nat) -> bool
    decreases depth,
{
    match value {
        Json::Null => true,
        Json::Bool(_) => true,
        Json::Number(text) => !text.contains('.') && !text.contains('e'),
        Json::String(_) => true,
        Json::Array(items) => depth > 0 && forall|i: int|
            0 <= i < items.len() ==> reads_back(#[trigger] items[i], (depth - 1) as nat),
        Json::Object(entries) => depth > 0 && !raw_key_first(entries) && forall|key: Seq<char>|
         #[trigger]
            entries.dom().contains(key) ==> reads_back(entries[key], (depth - 1) as nat),
    }
}

/// How deep `serde_json::from_str` follows nested arrays and objects.
pub open spec fn depth_limit() -> nat {
    127
}

/// Calls `serde_json::from_str`. Whether a text is JSON, and what it then holds, depends
/// on the text alone.
#[verifier::external_body]
pub(crate) fn parse_json(text: &str) -> (result: Result<Value, JsonError>)
    ensures
        match result {
            Ok(value) => parsed(text@) == Some(json(value)),
            Err(_) => parsed(text@) is None,
        },
{
    serde_json::from_str(text)
}

/// Calls `serde_json::to_string`, which writes every `Value`. Of a value without
/// fractions that is nested no deeper than `serde_json::from_str` follows, and in which no
/// object has the key first which that function keeps for itself, it writes a text from
/// which `serde_json::from_str` reads the same value. What is read back of other values is
/// not said.
#[verifier::external_body]
pub(crate) fn json_to_string(value: &Value) -> (text: String)
    ensures
        text@ == printed(json(*value)),
        reads_back(json(*value), depth_limit()) ==> parsed(text@) == Some(json(*value)),
{
    serde_json::to_string(value).unwrap()
}

/// Calls `<Value as Index<usize>>::index`: the item of an array, and `Null` for an index
/// beyond it and for a value that is no array.
#[verifier::external_body]
pub(crate) fn json_item(value: &Value, index: usize) -> (result: &Value)
    ensures
        json(*result) == item(json(*value), index as int),
{
    &value[index]
}

/// Calls `Value::as_str`: the text of a string, and nothing for any other value.
#[verifier::external_body]
pub(crate) fn json_as_str(value: &Value) -> (text: Option<&str>)
    ensures
        match text {
            Some(t) => as_text(json(*value)) == Some(t@),
            None => as_text(json(*value)) is None,
        },
{
    value.as_str()
}

/// `<Value as Clone>::clone`: a value that holds the same.
pub assume_specification[ <Value as Clone>::clone ](value: &Value) -> (result: Value)
    ensures
        json(result) == json(*value),
;

/// Makes a `Value::Null`.
#[verifier::external_body]
pub(crate) fn json_null() -> (value: Value)
    ensures
        json(value) == Json::Null,
{
    Value::Null
}

/// Calls `<Value as From<&str>>::from`: the string with that text.
#[verifier::external_body]
pub(crate) fn json_string(text: &str) -> (value: Value)
    ensures
        json(value) == Json::String(text@),
{
    Value::from(text)
}

/// Makes a `Value::Array` of the items.
#[verifier::external_body]
pub(crate) fn json_array(items: Vec<Value>) -> (value: Value)
    ensures
        json(value) == Json::Array(jsons(items@)),
{
    Value::Array(items)
}

/// Calls `<Value as FromIterator<(String, Value)>>::from_iter`: the object with those
/// members. Which value stays of a key that is given twice is not said.
#[verifier::external_body]
pub(crate) fn json_object(entries: Vec<(String, Value)>) -> (value: Value)
    ensures
        is_object_of(json(value), entries@),
{
    Value::from_iter(entries)
}

} // verus!
