//! The parts of `serde_json` that the library calls, with what each call is
//! trusted to do. A JSON document is handled as `serde_json::Value`; its
//! objects are described by their contents, a map from key to value.

use vstd::prelude::*;

verus! {

#[verifier::external_type_specification]
#[verifier::external_body]
pub struct ExJsonValue(serde_json::Value);

#[verifier::external_type_specification]
#[verifier::external_body]
#[verifier::reject_recursive_types(K)]
#[verifier::reject_recursive_types(V)]
pub struct ExJsonMap<K, V>(serde_json::Map<K, V>);

#[verifier::external_type_specification]
#[verifier::external_body]
pub struct ExJsonError(serde_json::Error);

/// The char sequences of a sequence of strings.
pub open spec fn views(v: Seq<String>) -> Seq<Seq<char>> {
    v.map_values(|s: String| s@)
}

/// What a `serde_json::Map` holds: each key, by its characters, and its value.
pub uninterp spec fn json_map_contents(m: serde_json::Map<String, serde_json::Value>) -> Map<Seq<char>, serde_json::Value>;

/// What a JSON value holds when it is an object (`None` for any other value).
pub uninterp spec fn json_object_contents(v: serde_json::Value) -> Option<Map<Seq<char>, serde_json::Value>>;

/// The JSON array whose items are the given strings, in order.
pub uninterp spec fn json_string_array(items: Seq<Seq<char>>) -> serde_json::Value;

/// The value that `serde_json::from_str` reads from a text, or `None` where it fails.
pub uninterp spec fn json_parsed(text: Seq<char>) -> Option<serde_json::Value>;

/// The text that `serde_json::to_string_pretty` writes for a value, or `None` where it fails.
pub uninterp spec fn json_pretty(v: serde_json::Value) -> Option<Seq<char>>;

/// The text that `serde_json::to_string` writes for a list of strings, or `None` where it fails.
pub uninterp spec fn json_of_strings(items: Seq<Seq<char>>) -> Option<Seq<char>>;

/// The list of strings that `serde_json::from_str` reads from a text, or `None` where it fails.
pub uninterp spec fn strings_of_json(text: Seq<char>) -> Option<Seq<Seq<char>>>;

/// Calls `serde_json::from_str::<Value>`. Trusted: the outcome is `json_parsed`
/// of the text; what the error holds is left unsaid.
#[verifier::external_body]
pub(crate) fn parse_json(text: &str) -> (r: Result<serde_json::Value, serde_json::Error>)
    ensures
        r is Ok <==> json_parsed(text@) is Some,
        r matches Ok(v) ==> json_parsed(text@) == Some(v),
{
    serde_json::from_str::<serde_json::Value>(text)
}

/// Calls `serde_json::to_string_pretty`. Trusted: the outcome is `json_pretty`
/// of the value; what the error holds is left unsaid.
#[verifier::external_body]
pub(crate) fn pretty_json(v: &serde_json::Value) -> (r: Result<String, serde_json::Error>)
    ensures
        r is Ok <==> json_pretty(*v) is Some,
        r matches Ok(s) ==> json_pretty(*v) == Some(s@),
{
    serde_json::to_string_pretty(v)
}

/// Tells `Value::Object` from the other variants of `serde_json::Value`.
/// Trusted: an object gives its map, whose contents are the object's; any
/// other value comes back unchanged and is no object.
#[verifier::external_body]
pub(crate) fn value_into_object(v: serde_json::Value) -> (r: Result<serde_json::Map<String, serde_json::Value>, serde_json::Value>)
    ensures
        match r {
            Ok(m) => json_object_contents(v) == Some(json_map_contents(m)),
            Err(w) => w == v && json_object_contents(v) is None,
        },
{
    match v {
        serde_json::Value::Object(m) => Ok(m),
        other => Err(other),
    }
}

/// Builds `Value::Object` from a map. Trusted: the object holds what the map held.
#[verifier::external_body]
pub(crate) fn object_value(m: serde_json::Map<String, serde_json::Value>) -> (v: serde_json::Value)
    ensures
        json_object_contents(v) == Some(json_map_contents(m)),
{
    serde_json::Value::Object(m)
}

/// Calls `serde_json::Map::new`. Trusted: the new map is empty.
#[verifier::external_body]
pub(crate) fn empty_map() -> (r: serde_json::Map<String, serde_json::Value>)
    ensures
        json_map_contents(r).dom().is_empty(),
{
    serde_json::Map::new()
}

/// Calls `serde_json::Map::insert`. Trusted: afterwards the key maps to the
/// value and every other key is as before; the value it had (if any) is returned.
#[verifier::external_body]
pub(crate) fn map_insert(m: &mut serde_json::Map<String, serde_json::Value>, key: String, v: serde_json::Value) -> (r: Option<serde_json::Value>)
    ensures
        json_map_contents(*final(m)) == json_map_contents(*old(m)).insert(key@, v),
        json_map_contents(*old(m)).contains_key(key@) ==> r == Some(json_map_contents(*old(m))[key@]),
        !json_map_contents(*old(m)).contains_key(key@) ==> r is None,
{
    m.insert(key, v)
}

/// Calls `serde_json::Map::remove`. Trusted: the key leaves the map, every
/// other key stays, and the value it had (if any) is returned.
#[verifier::external_body]
pub(crate) fn map_remove(m: &mut serde_json::Map<String, serde_json::Value>, key: &str) -> (r: Option<serde_json::Value>)
    ensures
        json_map_contents(*final(m)) == json_map_contents(*old(m)).remove(key@),
        json_map_contents(*old(m)).contains_key(key@) ==> r == Some(json_map_contents(*old(m))[key@]),
        !json_map_contents(*old(m)).contains_key(key@) ==> r is None,
{
    m.remove(key)
}

/// Builds a `Value::Array` of `Value::String` items. Trusted: the result is
/// `json_string_array` of the strings.
#[verifier::external_body]
pub(crate) fn string_array(items: Vec<String>) -> (v: serde_json::Value)
    ensures
        v == json_string_array(views(items@)),
{
    serde_json::Value::Array(items.into_iter().map(serde_json::Value::String).collect())
}

/// Calls `serde_json::to_string` on a list of strings. Trusted: the outcome is
/// `json_of_strings` of the strings; what the error holds is left unsaid.
#[verifier::external_body]
pub(crate) fn strings_to_json(items: &Vec<String>) -> (r: Result<String, serde_json::Error>)
    ensures
        r is Ok <==> json_of_strings(views(items@)) is Some,
        r matches Ok(s) ==> json_of_strings(views(items@)) == Some(s@),
{
    serde_json::to_string(items)
}

/// Calls `serde_json::from_str::<Vec<String>>`. Trusted: the outcome is
/// `strings_of_json` of the text; what the error holds is left unsaid.
#[verifier::external_body]
pub(crate) fn strings_from_json(text: &str) -> (r: Result<Vec<String>, serde_json::Error>)
    ensures
        r is Ok <==> strings_of_json(text@) is Some,
        r matches Ok(v) ==> strings_of_json(text@) == Some(views(v@)),
{
    serde_json::from_str::<Vec<String>>(text)
}

} // verus!
