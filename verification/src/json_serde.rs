//! JSON text: parsing text into values and writing values as text, both done by `serde_json`.
use vstd::prelude::*;
use crate::json::{JsonNumber, JsonValue, JsonModel};
use serde_json::Value as SerdeValue;

verus! {

/// A JSON value as `serde_json` holds it.
#[verifier::external_type_specification]
#[verifier::external_body]
pub struct ExSerdeValue(SerdeValue);

/// The value `serde_json::from_str` parses a text into, if it parses.
pub uninterp spec fn json_parse(text: Seq<char>) -> Option<JsonModel>;

/// The compact text `serde_json` writes of a value (`SerdeValue::to_string`).
pub uninterp spec fn json_text_of(v: JsonModel) -> Seq<char>;

/// The value `serde_json::Value::pointer` finds inside a value by a JSON pointer, if any.
pub uninterp spec fn pointer_of(v: JsonModel, pointer: Seq<char>) -> Option<JsonModel>;

/// The model of an optional value.
pub open spec fn opt_json(v: Option<JsonValue>) -> Option<JsonModel> {
    match v {
        Some(j) => Some(j@),
        None => None,
    }
}

/// Converts a `SerdeValue` into the library's value, variant by variant: a number
/// keeps the form `serde_json` holds it in (a non-negative integer, a negative integer, or
/// any other number as its text), an object keeps its entries in the order of its map.
#[verifier::external_body]
fn json_from_serde(v: &SerdeValue) -> JsonValue {
    match v {
        SerdeValue::Null => JsonValue::Null,
        SerdeValue::Bool(b) => JsonValue::Bool(*b),
        SerdeValue::Number(n) => JsonValue::Number(match (n.as_u64(), n.as_i64()) {
            (Some(u), _) => JsonNumber::PosInt(u),
            (None, Some(i)) => JsonNumber::NegInt(i),
            (None, None) => JsonNumber::Float(n.to_string()),
        }),
        SerdeValue::String(s) => JsonValue::String(s.clone()),
        SerdeValue::Array(a) => JsonValue::Array(a.iter().map(json_from_serde).collect()),
        SerdeValue::Object(o) => JsonValue::Object(
            o.iter().map(|(k, e)| (k.clone(), json_from_serde(e))).collect(),
        ),
    }
}

/// Converts the library's value into a `SerdeValue`, variant by variant; a number held
/// as text is read back by `serde_json::Number`'s `from_str`, and is null should it not read.
#[verifier::external_body]
fn json_to_serde(v: &JsonValue) -> SerdeValue {
    match v {
        JsonValue::Null => SerdeValue::Null,
        JsonValue::Bool(b) => SerdeValue::Bool(*b),
        JsonValue::Number(JsonNumber::PosInt(u)) => SerdeValue::from(*u),
        JsonValue::Number(JsonNumber::NegInt(i)) => SerdeValue::from(*i),
        JsonValue::Number(JsonNumber::Float(t)) => t.parse::<serde_json::Number>().map(
            SerdeValue::Number,
        ).unwrap_or(SerdeValue::Null),
        JsonValue::String(s) => SerdeValue::String(s.clone()),
        JsonValue::Array(a) => SerdeValue::Array(a.iter().map(json_to_serde).collect()),
        JsonValue::Object(o) => SerdeValue::Object(
            o.iter().map(|(k, e)| (k.clone(), json_to_serde(e))).collect(),
        ),
    }
}

/// Calls `serde_json::from_str` to parse a text into a `SerdeValue`, converted into the
/// library's value: the result is `json_parse` of the text.
#[verifier::external_body]
pub(crate) fn parse_json(text: &str) -> (r: Option<JsonValue>)
    ensures
        opt_json(r) == json_parse(text@),
{
    match serde_json::from_str::<SerdeValue>(text) {
        Ok(v) => Some(json_from_serde(&v)),
        Err(_) => None,
    }
}

/// Calls `to_string` on the `SerdeValue` of a value: the result is `json_text_of` the
/// value.
#[verifier::external_body]
pub(crate) fn json_text(v: &JsonValue) -> (r: String)
    ensures
        r@ == json_text_of(v@),
{
    json_to_serde(v).to_string()
}

/// Calls `serde_json::Value::pointer` on the `serde_json::Value` of a value: the result is
/// `pointer_of` the value and the pointer.
#[verifier::external_body]
pub(crate) fn json_pointer(v: &JsonValue, pointer: &str) -> (r: Option<JsonValue>)
    ensures
        opt_json(r) == pointer_of(v@, pointer@),
{
    match json_to_serde(v).pointer(pointer) {
        Some(found) => Some(json_from_serde(found)),
        None => None,
    }
}

} // verus!
