//! JSON text and bytes read with `serde_json`.

use vstd::prelude::*;

use crate::json::{Json, JsonView};
use crate::outcome;

verus! {

/// A JSON value of `serde_json`.
#[verifier::external_type_specification]
#[verifier::external_body]
pub struct ExValue(serde_json::Value);

/// The value that a `serde_json::Value` holds: each variant under the variant of the
/// same kind, a number as the text that `serde_json::Number` displays.
pub uninterp spec fn value_contents(value: serde_json::Value) -> JsonView;

/// What `serde_json::from_str` reads from a text; nothing where it reports an error.
pub uninterp spec fn parsed_json(text: Seq<char>) -> Option<JsonView>;

/// What `serde_json::from_slice` reads from bytes, or the text of the error that it
/// reports.
pub uninterp spec fn decoded_json(bytes: Seq<u8>) -> Result<JsonView, Seq<char>>;

/// `serde_json::from_str` for `serde_json::Value`: a function of the text alone.
#[verifier::external_body]
fn value_from_str(text: &str) -> (value: Option<serde_json::Value>)
    ensures
        match value {
            Some(value) => parsed_json(text@) == Some(value_contents(value)),
            None => parsed_json(text@) is None,
        },
{
    serde_json::from_str::<serde_json::Value>(text).ok()
}

/// `serde_json::from_slice` for `serde_json::Value`: a function of the bytes alone,
/// the displayed error with it.
#[verifier::external_body]
fn value_from_slice(bytes: &Vec<u8>) -> (value: Result<serde_json::Value, String>)
    ensures
        match value {
            Ok(value) => decoded_json(bytes@) == Ok::<JsonView, Seq<char>>(value_contents(value)),
            Err(message) => decoded_json(bytes@) == Err::<JsonView, Seq<char>>(message@),
        },
{
    serde_json::from_slice::<serde_json::Value>(bytes.as_slice()).map_err(|error| error.to_string())
}

/// Moves what a `serde_json::Value` holds, variant by variant, into a `Json`.
#[verifier::external_body]
fn json_of_value(value: serde_json::Value) -> (json: Json)
    ensures
        json@ == value_contents(value),
{
    match value {
        serde_json::Value::Null => Json::Null,
        serde_json::Value::Bool(b) => Json::Bool(b),
        serde_json::Value::Number(number) => Json::Number(number.to_string()),
        serde_json::Value::String(text) => Json::Text(text),
        serde_json::Value::Array(items) => Json::Array(
            items.into_iter().map(json_of_value).collect(),
        ),
        serde_json::Value::Object(members) => Json::Object(
            members.into_iter().map(|(key, member)| (key, json_of_value(member))).collect(),
        ),
    }
}

/// Reads a JSON text.
pub fn parse_json(text: &str) -> (json: Option<Json>)
    ensures
        json.deep_view() == parsed_json(text@),
{
    match value_from_str(text) {
        Some(value) => Some(json_of_value(value)),
        None => None,
    }
}

/// Reads JSON bytes.
pub fn decode_json(bytes: &Vec<u8>) -> (json: Result<Json, String>)
    ensures
        outcome::of(json) == decoded_json(bytes@),
{
    match value_from_slice(bytes) {
        Ok(value) => Ok(json_of_value(value)),
        Err(message) => Err(message),
    }
}

} // verus!
