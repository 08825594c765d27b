//! JSON values as `serde_json` holds them, and the few constructors the relay needs.
//!
//! Nothing in this module is proved: every item states what `serde_json` does
//! and is taken on trust by the rest of the crate.

use vstd::prelude::*;

verus! {

/// `serde_json::Value`, carried through the relay without being looked into.
#[verifier::external_type_specification]
#[verifier::external_body]
pub struct ExJsonValue(serde_json::Value);

/// `serde_json::Map`, the key/value store behind a JSON object.
#[verifier::external_type_specification]
#[verifier::external_body]
#[verifier::reject_recursive_types(K)]
#[verifier::reject_recursive_types(V)]
pub struct ExJsonMap<K, V>(serde_json::Map<K, V>);

/// The JSON string with the characters `text`: what `Value::String` builds.
pub uninterp spec fn json_string(text: Seq<char>) -> serde_json::Value;

/// The JSON object with the members `fields`: what `Value::Object` builds.
pub uninterp spec fn json_object(fields: Map<Seq<char>, serde_json::Value>) -> serde_json::Value;

/// The members a `serde_json::Map` holds, by key.
pub uninterp spec fn json_fields(map: serde_json::Map<String, serde_json::Value>) -> Map<Seq<char>, serde_json::Value>;

/// Calls `serde_json::Map::new`, which makes a map without members.
#[verifier::external_body]
pub(crate) fn new_fields() -> (fields: serde_json::Map<String, serde_json::Value>)
    ensures
        json_fields(fields) =~= Map::empty(),
{
    serde_json::Map::new()
}

/// Calls `serde_json::Map::insert`, which stores `value` under `key` and
/// replaces the member that was stored under that key before, if any. The
/// replaced member is dropped.
#[verifier::external_body]
pub(crate) fn insert_field(
    map: &mut serde_json::Map<String, serde_json::Value>,
    key: String,
    value: serde_json::Value,
)
    ensures
        json_fields(*final(map)) == json_fields(*old(map)).insert(key@, value),
{
    map.insert(key, value);
}

/// Builds `serde_json::Value::String` from `text`.
#[verifier::external_body]
pub(crate) fn string_value(text: String) -> (value: serde_json::Value)
    ensures
        value == json_string(text@),
{
    serde_json::Value::String(text)
}

/// Builds `serde_json::Value::Object` from `map`.
#[verifier::external_body]
pub(crate) fn object_value(map: serde_json::Map<String, serde_json::Value>) -> (value:
    serde_json::Value)
    ensures
        value == json_object(json_fields(map)),
{
    serde_json::Value::Object(map)
}

} // verus!
