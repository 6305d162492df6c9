//! The flat JSON object that carries the claims of a token.
//!
//! The object itself is a `serde_json::Map`. What it holds is known to the
//! verifier only through `json_entries` and the contracts of the calls below,
//! none of which is proved here.

use vstd::prelude::*;

verus! {

/// A JSON object with text keys, as `serde_json` holds it.
pub type JsonObject = serde_json::Map<String, serde_json::Value>;

/// What stands under one key of a JSON object, as far as this library reads it:
/// `null`, an integer that fits `u64`, a string, or anything else.
pub enum JsonScalar {
    Null,
    Number(u64),
    Text(Seq<char>),
    Other,
}

/// The answer to a lookup of one key in a JSON object.
#[derive(Debug)]
pub enum JsonLookup {
    Missing,
    Null,
    Number(u64),
    Text(String),
    Other,
}

impl View for JsonLookup {
    type V = Option<JsonScalar>;

    open spec fn view(&self) -> Option<JsonScalar> {
        match *self {
            JsonLookup::Missing => None,
            JsonLookup::Null => Some(JsonScalar::Null),
            JsonLookup::Number(n) => Some(JsonScalar::Number(n)),
            JsonLookup::Text(s) => Some(JsonScalar::Text(s@)),
            JsonLookup::Other => Some(JsonScalar::Other),
        }
    }
}

/// The entries of an object that holds nothing.
pub open spec fn no_entries() -> Map<Seq<char>, JsonScalar> {
    Map::empty()
}

/// What a lookup of `key` in an object with the given entries answers.
pub open spec fn lookup_in(entries: Map<Seq<char>, JsonScalar>, key: Seq<char>) -> Option<
    JsonScalar,
> {
    if entries.dom().contains(key) {
        Some(entries[key])
    } else {
        None
    }
}

/// The entries of a JSON object: for each key that it has, what stands under it.
pub uninterp spec fn json_entries(object: JsonObject) -> Map<Seq<char>, JsonScalar>;

/// The entries of the object that a JSON text reads as. It says nothing of a
/// text that is no JSON object.
pub uninterp spec fn json_document(text: Seq<char>) -> Map<Seq<char>, JsonScalar>;

/// `serde_json::to_string` of an object: a JSON text that reads back as an
/// object with the same entries. The call can fail on a value that cannot be
/// written or on a key that is no string; an object with text keys and JSON
/// values has neither, so it always gives a text.
#[verifier::external_body]
pub(crate) fn json_to_text(object: &JsonObject) -> (text: Result<String, serde_json::Error>)
    ensures
        text is Ok,
        json_document(text.unwrap()@) == json_entries(*object),
{
    serde_json::to_string(object)
}

/// What a `serde_json::Error` displays as: the message of the failure in the
/// crate's own words. Nothing is claimed of the text.
#[verifier::external_body]
pub(crate) fn json_error_text(error: &serde_json::Error) -> (text: String) {
    error.to_string()
}

/// `serde_json::Map::new`: an object without entries.
#[verifier::external_body]
pub(crate) fn json_object_new() -> (object: JsonObject)
    ensures
        json_entries(object) == no_entries(),
{
    serde_json::Map::new()
}

/// `serde_json::Map::insert` of a string: afterwards `key` holds that string,
/// whatever it held before, and the other keys are as they were.
#[verifier::external_body]
pub(crate) fn json_insert_text(object: &mut JsonObject, key: &str, value: &str)
    ensures
        json_entries(*final(object)) == json_entries(*old(object)).insert(
            key@,
            JsonScalar::Text(value@),
        ),
{
    object.insert(key.to_owned(), serde_json::Value::String(value.to_owned()));
}

/// `serde_json::Map::insert` of a non-negative integer: afterwards `key` holds
/// that number, and the other keys are as they were.
#[verifier::external_body]
pub(crate) fn json_insert_number(object: &mut JsonObject, key: &str, value: u64)
    ensures
        json_entries(*final(object)) == json_entries(*old(object)).insert(
            key@,
            JsonScalar::Number(value),
        ),
{
    object.insert(key.to_owned(), serde_json::Value::Number(serde_json::Number::from(value)));
}

/// `serde_json::Map::insert` of `null`: afterwards `key` holds `null`, and the
/// other keys are as they were.
#[verifier::external_body]
pub(crate) fn json_insert_null(object: &mut JsonObject, key: &str)
    ensures
        json_entries(*final(object)) == json_entries(*old(object)).insert(key@, JsonScalar::Null),
{
    object.insert(key.to_owned(), serde_json::Value::Null);
}

/// `serde_json::Map::append` of a copy of `second`: every entry of `second`
/// comes into `first`; where both have a key, the entry of `second` stays.
#[verifier::external_body]
pub(crate) fn json_append(first: &mut JsonObject, second: &JsonObject)
    ensures
        json_entries(*final(first)) == json_entries(*old(first)).union_prefer_right(
            json_entries(*second),
        ),
{
    first.append(&mut second.clone());
}

/// `serde_json::Map::get`, with the value that was found told apart by its
/// variant; a number counts only where `serde_json::Number::as_u64` gives it.
#[verifier::external_body]
pub(crate) fn json_lookup(object: &JsonObject, key: &str) -> (found: JsonLookup)
    ensures
        found@ == lookup_in(json_entries(*object), key@),
{
    match object.get(key) {
        None => JsonLookup::Missing,
        Some(serde_json::Value::Null) => JsonLookup::Null,
        Some(serde_json::Value::String(s)) => JsonLookup::Text(s.clone()),
        Some(serde_json::Value::Number(n)) => n.as_u64().map_or(JsonLookup::Other, JsonLookup::Number),
        Some(_) => JsonLookup::Other,
    }
}

} // verus!
