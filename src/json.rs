//! The JSON values that graphs carry as opaque metadata, and the calls into serde_json.
use vstd::prelude::*;

verus! {

/// A JSON document tree, carried through unread.
#[verifier::external_type_specification]
#[verifier::external_body]
pub struct ExJsonValue(serde_json::Value);

/// A failure to parse JSON text.
#[verifier::external_type_specification]
#[verifier::external_body]
pub struct ExJsonError(serde_json::Error);

/// Whether `text` is one well-formed JSON document, as serde_json's parser decides.
pub uninterp spec fn is_json_text(text: Seq<char>) -> bool;

/// The value serde_json's parser reads from `text`.
pub uninterp spec fn json_value_of(text: Seq<char>) -> serde_json::Value;

/// Relies on `serde_json::from_str::<Value>`: whether it succeeds, and the value it reads,
/// depend on the text alone.
#[verifier::external_body]
pub(crate) fn parse_json(text: &str) -> (r: Result<serde_json::Value, serde_json::Error>)
    ensures
        r is Ok <==> is_json_text(text@),
        r matches Ok(v) ==> v == json_value_of(text@),
{
    serde_json::from_str::<serde_json::Value>(text)
}

/// Relies on `serde_json::Error`'s `Display`: the human-readable reason for a parse failure.
#[verifier::external_body]
pub(crate) fn json_error_text(e: &serde_json::Error) -> (r: String) {
    e.to_string()
}

/// The JSON object whose one field `key` holds the string `text`.
pub uninterp spec fn single_field_object(key: Seq<char>, text: Seq<char>) -> serde_json::Value;

/// Relies on `serde_json::Map::new`, `serde_json::Map::insert` and `serde_json::Value`'s
/// constructors: an object with the single field `key` holding the string `text`.
#[verifier::external_body]
pub(crate) fn string_field_object(key: String, text: String) -> (r: serde_json::Value)
    ensures
        r == single_field_object(key@, text@),
{
    let mut fields = serde_json::Map::new();
    fields.insert(key, serde_json::Value::String(text));
    serde_json::Value::Object(fields)
}

} // verus!
