//! The trusted boundary to serde_json. JSON documents cross this library as
//! opaque `serde_json::Value`s: the wrappers here look fields up, read
//! scalars out and parse argument text, and the verified code around them
//! does everything else. Each wrapper relies on one serde_json function,
//! named in its doc comment; each read's result is a function of the
//! document alone and carries a name, so that the callers' contracts can
//! say what they return for every document.

use vstd::prelude::*;

verus! {

#[verifier::external_type_specification]
#[verifier::external_body]
pub struct ExValue(serde_json::Value);

#[verifier::external_type_specification]
#[verifier::external_body]
pub struct ExJsonError(serde_json::Error);

/// Whether serde_json accepts the text as a JSON document. Parsing is a
/// function of the text alone.
pub uninterp spec fn json_parses(s: Seq<char>) -> bool;

/// The document serde_json parses the text into, when it accepts it.
pub uninterp spec fn parsed_of(s: Seq<char>) -> serde_json::Value;

/// What Value::get returns for a string key: the field when the value is
/// an object carrying it, absent otherwise.
pub uninterp spec fn get_key_of(v: serde_json::Value, key: Seq<char>) -> Option<serde_json::Value>;

/// What Value::get returns for a usize index: the element when the value
/// is an array and the index is in bounds, absent otherwise.
pub uninterp spec fn get_index_of(v: serde_json::Value, i: int) -> Option<serde_json::Value>;

/// What Value::as_str returns: the characters when the value is a JSON
/// string, absent otherwise.
pub uninterp spec fn str_of(v: serde_json::Value) -> Option<Seq<char>>;

/// What Value::as_array returns: the elements when the value is a JSON
/// array, absent otherwise.
pub uninterp spec fn array_of(v: serde_json::Value) -> Option<Seq<serde_json::Value>>;

/// What Value::as_i64 returns: the integer when the value is a JSON
/// number representable as i64, absent otherwise.
pub uninterp spec fn i64_of(v: serde_json::Value) -> Option<i64>;

/// The string field of an object read as the decoder reads it: the empty
/// string when the field is absent or not a string.
pub open spec fn spec_str_field_or_empty(v: serde_json::Value, key: Seq<char>) -> Seq<char> {
    match get_key_of(v, key) {
        Some(f) => match str_of(f) {
            Some(s) => s,
            None => Seq::empty(),
        },
        None => Seq::empty(),
    }
}

/// The string field of an object, absent when missing or not a string.
pub open spec fn spec_opt_str_field(v: serde_json::Value, key: Seq<char>) -> Option<Seq<char>> {
    match get_key_of(v, key) {
        Some(f) => str_of(f),
        None => None,
    }
}

/// The integer field of an object, absent when missing or not an integer.
pub open spec fn spec_opt_i64_field(v: serde_json::Value, key: Seq<char>) -> Option<i64> {
    match get_key_of(v, key) {
        Some(f) => i64_of(f),
        None => None,
    }
}

/// Relies on serde_json::from_str::<Value>: parses the text as JSON;
/// success and the parsed document depend on the text alone.
#[verifier::external_body]
pub fn parse_json(s: &str) -> (r: Result<serde_json::Value, serde_json::Error>)
    ensures
        r is Ok <==> json_parses(s@),
        r matches Ok(v) ==> v == parsed_of(s@),
{
    serde_json::from_str::<serde_json::Value>(s)
}

/// Relies on serde_json::Error's Display implementation: renders the parse
/// error as human-readable text.
#[verifier::external_body]
pub fn json_error_string(e: &serde_json::Error) -> String {
    e.to_string()
}

/// Relies on serde_json::Value::get with a string index: looks the key up
/// when the value is an object, and returns None otherwise.
#[verifier::external_body]
pub fn json_get<'a>(v: &'a serde_json::Value, key: &str) -> (r: Option<&'a serde_json::Value>)
    ensures
        match r {
            Some(f) => get_key_of(*v, key@) == Some(*f),
            None => get_key_of(*v, key@) is None,
        },
{
    v.get(key)
}

/// Relies on serde_json::Value::get with a usize index: returns the element
/// when the value is an array and the index is in bounds, None otherwise.
#[verifier::external_body]
pub fn json_get_index<'a>(v: &'a serde_json::Value, i: usize) -> (r: Option<
    &'a serde_json::Value,
>)
    ensures
        match r {
            Some(f) => get_index_of(*v, i as int) == Some(*f),
            None => get_index_of(*v, i as int) is None,
        },
{
    v.get(i)
}

/// Relies on serde_json::Value::as_str: the borrowed string when the value
/// is a JSON string, None otherwise.
#[verifier::external_body]
pub fn json_as_str<'a>(v: &'a serde_json::Value) -> (r: Option<&'a str>)
    ensures
        match r {
            Some(s) => str_of(*v) == Some(s@),
            None => str_of(*v) is None,
        },
{
    v.as_str()
}

/// Relies on serde_json::Value::as_array: the element vector when the value
/// is a JSON array, None otherwise.
#[verifier::external_body]
pub fn json_as_array<'a>(v: &'a serde_json::Value) -> (r: Option<&'a Vec<serde_json::Value>>)
    ensures
        match r {
            Some(a) => array_of(*v) == Some(a@),
            None => array_of(*v) is None,
        },
{
    v.as_array()
}

/// Relies on serde_json::Value::as_i64: the integer when the value is a
/// JSON number representable as i64, None otherwise.
#[verifier::external_body]
pub fn json_as_i64(v: &serde_json::Value) -> (r: Option<i64>)
    ensures
        r == i64_of(*v),
{
    v.as_i64()
}

/// Relies on the derived Clone of serde_json::Value: a deep copy carries
/// the same JSON document.
#[verifier::external_body]
pub fn json_clone(v: &serde_json::Value) -> (r: serde_json::Value)
    ensures
        r == *v,
{
    v.clone()
}

} // verus!
