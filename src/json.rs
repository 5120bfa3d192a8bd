use vstd::prelude::*;
use std::collections::HashMap;
use serde_json::Value;

verus! {

#[verifier::external_type_specification]
#[verifier::external_body]
pub struct ExJsonValue(serde_json::Value);

#[verifier::external_type_specification]
#[verifier::external_body]
#[verifier::reject_recursive_types(K)]
#[verifier::reject_recursive_types(V)]
pub struct ExJsonMap<K, V>(serde_json::Map<K, V>);

/// The entries of a JSON object, by key.
pub uninterp spec fn object_entries(m: serde_json::Map<String, serde_json::Value>) -> Map<Seq<char>, serde_json::Value>;

/// The keys of a JSON object.
pub open spec fn object_keys(m: serde_json::Map<String, Value>) -> Set<Seq<char>> {
    object_entries(m).dom()
}

/// The JSON string holding `s`.
pub uninterp spec fn json_string(s: Seq<char>) -> serde_json::Value;

/// The JSON number `n`.
pub uninterp spec fn json_u64(n: u64) -> serde_json::Value;

/// The JSON object with the entries of a hash map.
pub uninterp spec fn json_object_from(d: Map<String, serde_json::Value>) -> serde_json::Value;

/// The JSON array of the items, in order.
pub uninterp spec fn json_array(items: Seq<serde_json::Value>) -> serde_json::Value;

/// The JSON value holding an object.
pub uninterp spec fn json_object(m: serde_json::Map<String, serde_json::Value>) -> serde_json::Value;

/// The JSON value a text parses to, if it is valid JSON.
pub uninterp spec fn parsed_json(text: Seq<char>) -> Option<serde_json::Value>;

/// Relies on `serde_json::Map::new`: the new object has no entries.
#[verifier::external_body]
pub(crate) fn new_object() -> (m: serde_json::Map<String, Value>)
    ensures
        object_entries(m).dom() == Set::<Seq<char>>::empty(),
{
    serde_json::Map::new()
}

/// Relies on `serde_json::Map::insert`: afterwards the key holds the value,
/// and the other entries are those that were.
#[verifier::external_body]
pub(crate) fn put(m: &mut serde_json::Map<String, Value>, key: String, value: Value)
    ensures
        object_entries(*final(m)) == object_entries(*old(m)).insert(key@, value),
{
    m.insert(key, value);
}

/// Relies on `From<String> for serde_json::Value`: a JSON string.
#[verifier::external_body]
pub(crate) fn string_value(s: String) -> (r: Value)
    ensures
        r == json_string(s@),
{
    Value::from(s)
}

/// Relies on `From<u64> for serde_json::Value`: a JSON number.
#[verifier::external_body]
pub(crate) fn u64_value(n: u64) -> (r: Value)
    ensures
        r == json_u64(n),
{
    Value::from(n)
}

/// Relies on `serde_json::Value::Array`: a JSON array of the items.
#[verifier::external_body]
pub(crate) fn array_value(items: Vec<Value>) -> (r: Value)
    ensures
        r == json_array(items@),
{
    Value::Array(items)
}

/// Relies on `serde_json::Value::Object`: the object as a value.
#[verifier::external_body]
pub(crate) fn object_value(m: serde_json::Map<String, Value>) -> (r: Value)
    ensures
        r == json_object(m),
{
    Value::Object(m)
}

/// Relies on `Clone` for `serde_json::Value` and on collecting into a
/// `serde_json::Map`: an object with the same entries.
#[verifier::external_body]
pub(crate) fn map_value(d: &HashMap<String, Value>) -> (r: Value)
    ensures
        r == json_object_from(d@),
{
    Value::Object(d.clone().into_iter().collect())
}

/// The boolean under `key` of a JSON object, if it is one.
pub uninterp spec fn json_bool_at(v: serde_json::Value, key: Seq<char>) -> Option<bool>;

/// The non-negative integer under `key` of a JSON object, if it is one.
pub uninterp spec fn json_u64_at(v: serde_json::Value, key: Seq<char>) -> Option<u64>;

/// The string under `key` of a JSON object, if it is one.
pub uninterp spec fn json_str_at(v: serde_json::Value, key: Seq<char>) -> Option<Seq<char>>;

/// Relies on `serde_json::from_str`: the text parsed as JSON, or the parser's
/// message; which of the two depends on the text alone.
#[verifier::external_body]
pub(crate) fn parse_json(text: &str) -> (r: Result<Value, String>)
    ensures
        match r {
            Ok(v) => parsed_json(text@) == Some(v),
            Err(_) => parsed_json(text@) is None,
        },
{
    serde_json::from_str::<Value>(text).map_err(|e| e.to_string())
}

/// Relies on `serde_json::Value::get` and `Value::as_bool`.
#[verifier::external_body]
pub(crate) fn bool_at(v: &Value, key: &str) -> (r: Option<bool>)
    ensures
        r == json_bool_at(*v, key@),
{
    v.get(key).and_then(Value::as_bool)
}

/// Relies on `serde_json::Value::get` and `Value::as_u64`.
#[verifier::external_body]
pub(crate) fn u64_at(v: &Value, key: &str) -> (r: Option<u64>)
    ensures
        r == json_u64_at(*v, key@),
{
    v.get(key).and_then(Value::as_u64)
}

/// Relies on `serde_json::Value::get` and `Value::as_str`.
#[verifier::external_body]
pub(crate) fn str_at(v: &Value, key: &str) -> (r: Option<String>)
    ensures
        match r { Some(s) => json_str_at(*v, key@) == Some(s@), None => json_str_at(*v, key@) is None },
{
    v.get(key).and_then(Value::as_str).map(String::from)
}

} // verus!
