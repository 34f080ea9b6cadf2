use vstd::prelude::*;

use crate::request::optional_text;
use serde_json::Value as JsonValue;

verus! {

#[verifier::external_type_specification]
#[verifier::external_body]
pub struct ExJsonValue(JsonValue);

/// `Clone` for `serde_json::Value`, which `derive` writes for its source: the
/// copy is the same JSON value.
pub assume_specification[ <JsonValue as Clone>::clone ](value: &JsonValue) -> (copy: JsonValue)
    ensures
        copy == *value,
;

/// The compact text that `Display` for `serde_json::Value` writes of a value.
pub uninterp spec fn json_compact(value: JsonValue) -> Seq<char>;

/// What `serde_json::to_string_pretty` gives for a value: its indented text,
/// or `None` where serialization fails.
pub uninterp spec fn json_pretty(value: JsonValue) -> Option<Seq<char>>;

/// The JSON object that `FromIterator<(K, V)>` for `serde_json::Value` builds
/// from key and string-value pairs, in the given order.
pub uninterp spec fn json_string_object(pairs: Seq<(Seq<char>, Seq<char>)>) -> JsonValue;

/// Calls `Display` for `serde_json::Value` (through `to_string`); the result is
/// named, nothing more is claimed of it.
#[verifier::external_body]
pub(crate) fn compact_json(value: &JsonValue) -> (text: String)
    ensures
        text@ == json_compact(*value),
{
    value.to_string()
}

/// Calls `serde_json::to_string_pretty`, mapping its error to `None`; the
/// result is named, nothing more is claimed of it.
#[verifier::external_body]
pub(crate) fn pretty_json(value: &JsonValue) -> (text: Option<String>)
    ensures
        optional_text(text) == json_pretty(*value),
{
    serde_json::to_string_pretty(value).ok()
}

/// The pairs as text.
pub open spec fn pair_texts(pairs: Seq<(String, String)>) -> Seq<(Seq<char>, Seq<char>)> {
    pairs.map_values(|pair: (String, String)| (pair.0@, pair.1@))
}

/// Collects key and string-value pairs into a `serde_json::Value` object with
/// `FromIterator`; the result is named, nothing more is claimed of it.
#[verifier::external_body]
pub(crate) fn string_object(pairs: Vec<(String, String)>) -> (value: JsonValue)
    ensures
        value == json_string_object(pair_texts(pairs@)),
{
    pairs.into_iter().collect()
}

} // verus!
