//! The data that a page template is filled from: a JSON object of
//! `serde_json`, from keys to texts, lists and objects.
//!
//! The object is kept as `serde_json` holds it. What it holds is named
//! (`json_object`), and each operation on it that the library uses is given a
//! contract over that name.

use vstd::prelude::*;
use crate::text::string_views;

verus! {

/// A JSON value of `serde_json`.
#[verifier::external_type_specification]
#[verifier::external_body]
pub struct ExJsonValue(serde_json::Value);

/// A JSON object of `serde_json`.
#[verifier::external_type_specification]
#[verifier::external_body]
#[verifier::reject_recursive_types(K)]
#[verifier::reject_recursive_types(V)]
pub struct ExJsonObject<K, V>(serde_json::Map<K, V>);

/// The error of `serde_json` for a value that it cannot write. Nothing is
/// read of it.
#[verifier::external_type_specification]
#[verifier::external_body]
pub struct ExJsonError(serde_json::Error);

/// The mathematical value of a JSON value.
pub enum Json {
    /// A string.
    Text(Seq<char>),
    /// An array.
    List(Seq<Json>),
    /// An object.
    Object(Map<Seq<char>, Json>),
    /// A number, by its JSON text.
    Number(Seq<char>),
    /// A boolean.
    Bool(bool),
    /// Null.
    Null,
}

/// Name for what a `serde_json::Value` holds.
pub uninterp spec fn json_value(value: serde_json::Value) -> Json;

/// Name for what a `serde_json::Map` from strings to values holds: a value
/// for each of its keys.
pub uninterp spec fn json_object(object: serde_json::Map<String, serde_json::Value>) -> Map<
    Seq<char>,
    Json,
>;

/// Name for the JSON text that `serde_json::to_string` writes for a list of
/// strings.
pub uninterp spec fn json_text(items: Seq<Seq<char>>) -> Seq<char>;

/// What an object without keys holds.
pub open spec fn no_entries() -> Map<Seq<char>, Json> {
    Map::empty()
}

/// The values of a list of JSON values.
pub open spec fn json_values(values: Seq<serde_json::Value>) -> Seq<Json> {
    values.map_values(|value: serde_json::Value| json_value(value))
}

/// The text under a key of an object, where the key is there and holds a
/// string.
pub open spec fn text_under(object: Map<Seq<char>, Json>, key: Seq<char>) -> Option<Seq<char>> {
    if object.dom().contains(key) {
        match object[key] {
            Json::Text(text) => Some(text),
            _ => None,
        }
    } else {
        None
    }
}

/// `serde_json::Map::new` makes an object without keys.
#[verifier::external_body]
pub(crate) fn empty_object() -> (object: serde_json::Map<String, serde_json::Value>)
    ensures
        json_object(object) == no_entries(),
{
    serde_json::Map::new()
}

/// `serde_json::Map::insert` sets the value under a key, whether or not the
/// key was there, and leaves the other keys as they were.
#[verifier::external_body]
pub(crate) fn put(
    object: &mut serde_json::Map<String, serde_json::Value>,
    key: &str,
    value: serde_json::Value,
)
    ensures
        json_object(*final(object)) == json_object(*old(object)).insert(key@, json_value(value)),
{
    object.insert(key.to_owned(), value);
}

/// `serde_json::Map::get` and `serde_json::Value::as_str`: the string under
/// a key; none where the key is missing or holds something else.
#[verifier::external_body]
pub(crate) fn get_text(object: &serde_json::Map<String, serde_json::Value>, key: &str) -> (text:
    Option<String>)
    ensures
        text is Some <==> text_under(json_object(*object), key@) is Some,
        text is Some ==> text->0@ == text_under(json_object(*object), key@)->0,
{
    object.get(key).and_then(|value| value.as_str()).map(|text| text.to_owned())
}

/// `Clone::clone` of `serde_json::Map`: an object that holds what the first
/// one holds.
#[verifier::external_body]
pub(crate) fn copy_object(object: &serde_json::Map<String, serde_json::Value>) -> (copy:
    serde_json::Map<String, serde_json::Value>)
    ensures
        json_object(copy) == json_object(*object),
{
    object.clone()
}

/// `serde_json::Value::String`: the JSON string with the given text.
#[verifier::external_body]
pub(crate) fn text_value(text: &str) -> (value: serde_json::Value)
    ensures
        json_value(value) == Json::Text(text@),
{
    serde_json::Value::String(text.to_owned())
}

/// `serde_json::Value::Array`: the JSON array of the given values, in order.
#[verifier::external_body]
pub(crate) fn list_value(items: Vec<serde_json::Value>) -> (value: serde_json::Value)
    ensures
        json_value(value) == Json::List(json_values(items@)),
{
    serde_json::Value::Array(items)
}

/// `serde_json::Value::Object`: the JSON value that is the given object.
#[verifier::external_body]
pub(crate) fn object_value(object: serde_json::Map<String, serde_json::Value>) -> (value:
    serde_json::Value)
    ensures
        json_value(value) == Json::Object(json_object(object)),
{
    serde_json::Value::Object(object)
}

/// `serde_json::to_string` on a list of strings: its JSON text, which is a
/// function of the list. It succeeds on every list: a string and a list of
/// strings are written without a failure of their own, no map is among them,
/// and the text is written into memory.
#[verifier::external_body]
pub(crate) fn encode_strings(items: &Vec<String>) -> (text: Result<String, serde_json::Error>)
    ensures
        text is Ok,
        text->Ok_0@ == json_text(string_views(items@)),
{
    serde_json::to_string(items)
}

/// Sets the text under a key of an object.
pub fn put_text(object: &mut serde_json::Map<String, serde_json::Value>, key: &str, text: &str)
    ensures
        json_object(*final(object)) == json_object(*old(object)).insert(key@, Json::Text(text@)),
{
    let value = text_value(text);
    put(object, key, value);
}

} // verus!
