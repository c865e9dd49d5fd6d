//! The calls into `serde_json` that the library's logic makes.
use vstd::prelude::*;

verus! {

/// A JSON value of `serde_json`; opaque to the proofs.
#[verifier::external_type_specification]
#[verifier::external_body]
pub struct ExJsonValue(serde_json::Value);

/// What `serde_json::from_str::<Value>` gives for a text (`None` when it fails).
pub uninterp spec fn json_parse_value(text: Seq<char>) -> Option<serde_json::Value>;

/// The JSON string value `Value::String` holding a text.
pub uninterp spec fn json_string_value(text: Seq<char>) -> serde_json::Value;

/// What `serde_json::from_str::<Vec<Value>>` gives for a text (`None` when it fails).
pub uninterp spec fn json_parse_array(text: Seq<char>) -> Option<Seq<serde_json::Value>>;

/// The text `serde_json::to_string` gives for an array of values.
pub uninterp spec fn json_array_text(items: Seq<serde_json::Value>) -> Seq<char>;

/// What `serde_json::from_str::<Vec<String>>` gives for a text (`None` when it fails).
pub uninterp spec fn json_parse_strings(text: Seq<char>) -> Option<Seq<Seq<char>>>;

/// The text `serde_json::to_string` gives for a JSON object with the given
/// string members (later members replace earlier ones with the same name).
pub uninterp spec fn json_object_text(members: Seq<(Seq<char>, Seq<char>)>) -> Seq<char>;

/// What `value[field].as_str()` gives: the member `field` of a JSON object
/// when it is a string.
pub uninterp spec fn json_str_field(value: serde_json::Value, field: Seq<char>) -> Option<Seq<char>>;

/// Reads the string member `field` of a JSON value (`value[field].as_str()`).
#[verifier::external_body]
pub(crate) fn str_field(value: &serde_json::Value, field: &str) -> (r: Option<String>)
    ensures
        match r {
            Some(s) => json_str_field(*value, field@) == Some(s@),
            None => json_str_field(*value, field@) is None,
        },
{
    value[field].as_str().map(|s| s.to_string())
}

/// Calls `serde_json::from_str::<Value>`; the result is named, not described.
#[verifier::external_body]
pub(crate) fn parse_value(text: &str) -> (r: Option<serde_json::Value>)
    ensures
        r == json_parse_value(text@),
{
    serde_json::from_str::<serde_json::Value>(text).ok()
}

/// Builds `serde_json::Value::String` from a text.
#[verifier::external_body]
pub(crate) fn string_value(text: &str) -> (r: serde_json::Value)
    ensures
        r == json_string_value(text@),
{
    serde_json::Value::String(text.to_string())
}

/// Calls `serde_json::from_str::<Vec<Value>>`; the result is named, not described.
#[verifier::external_body]
pub(crate) fn parse_array(text: &str) -> (r: Option<Vec<serde_json::Value>>)
    ensures
        match r {
            Some(v) => json_parse_array(text@) == Some(v@),
            None => json_parse_array(text@) is None,
        },
{
    serde_json::from_str::<Vec<serde_json::Value>>(text).ok()
}

/// Calls `serde_json::to_string` on an array of values. Serialising a
/// `Value` cannot fail (its object keys are strings).
#[verifier::external_body]
pub(crate) fn array_to_text(items: &Vec<serde_json::Value>) -> (r: String)
    ensures
        r@ == json_array_text(items@),
{
    serde_json::to_string(items).unwrap_or_default()
}

/// Calls `serde_json::from_str::<Vec<String>>`; the result is named, not described.
#[verifier::external_body]
pub(crate) fn parse_strings(text: &str) -> (r: Option<Vec<String>>)
    ensures
        match r {
            Some(v) => json_parse_strings(text@) == Some(v@.map_values(|s: String| s@)),
            None => json_parse_strings(text@) is None,
        },
{
    serde_json::from_str::<Vec<String>>(text).ok()
}

/// Calls `serde_json::to_string` on a JSON object of string members.
#[verifier::external_body]
pub(crate) fn object_to_text(members: &Vec<(String, String)>) -> (r: String)
    ensures
        r@ == json_object_text(members@.map_values(|m: (String, String)| (m.0@, m.1@))),
{
    let map: serde_json::Map<String, serde_json::Value> = members
        .iter()
        .map(|(k, v)| (k.clone(), serde_json::Value::String(v.clone())))
        .collect();
    serde_json::to_string(&map).unwrap_or_default()
}

} // verus!
