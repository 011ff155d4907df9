//! The trusted boundary around serde_json, the JSON deserializer this
//! library consumes per streamed event, together with the library's own
//! model of a JSON document.
//!
//! A parsed `serde_json::Value` is opaque to verification, so the model
//! gives its contents a mathematical shape: [`spec_model_of`] names what
//! a value holds and [`spec_parsed_json`] names what a payload parses
//! to. Each accessor's contract relates what it returns to that model,
//! as serde_json's source shows, and the decoding logic above this
//! boundary is verified against the model exactly.

use vstd::prelude::*;

verus! {

/// The shape of one JSON value. A number carries the unsigned integer
/// it denotes when it denotes one (a fractional, negative or oversized
/// number carries nothing); an object is the map of its members, the
/// last member winning a repeated key, as serde_json parses it.
pub ghost enum JsonModel {
    Null,
    Bool(bool),
    Num(Option<u64>),
    Str(Seq<char>),
    Arr(Seq<JsonModel>),
    Obj(Map<Seq<char>, JsonModel>),
}

/// What a parsed JSON value holds.
pub uninterp spec fn spec_model_of(v: serde_json::Value) -> JsonModel;

/// What a payload parses to: the model of the parsed document, or
/// nothing when the text is not well-formed JSON. Parsing depends on
/// the text alone.
pub uninterp spec fn spec_parsed_json(s: Seq<char>) -> Option<JsonModel>;

/// serde_json's parsed JSON value, declared so that it can stand in
/// signatures and fields; verification sees it through [`spec_model_of`].
#[verifier::external_type_specification]
#[verifier::external_body]
pub struct ExValue(serde_json::Value);

/// Relies on serde_json::from_str::<Value>: parses a string as one JSON
/// value, or fails on malformed input; the outcome is a function of the
/// string alone.
#[verifier::external_body]
pub(crate) fn parse_json(s: &str) -> (r: Option<serde_json::Value>)
    ensures
        r matches Some(v) ==> spec_parsed_json(s@) == Some(spec_model_of(v)),
        r is None <==> spec_parsed_json(s@) is None,
{
    serde_json::from_str::<serde_json::Value>(s).ok()
}

/// Relies on serde_json::Value::get: the member under the key when the
/// value is an object that has one, and nothing otherwise.
#[verifier::external_body]
pub(crate) fn value_get<'a>(v: &'a serde_json::Value, key: &str) -> (r: Option<
    &'a serde_json::Value,
>)
    ensures
        match spec_model_of(*v) {
            JsonModel::Obj(fields) => if fields.contains_key(key@) {
                r matches Some(f) && spec_model_of(*f) == fields[key@]
            } else {
                r is None
            },
            _ => r is None,
        },
{
    v.get(key)
}

/// Relies on serde_json::Value::as_str: the text when the value is a
/// JSON string, and nothing otherwise.
#[verifier::external_body]
pub(crate) fn value_as_str<'a>(v: &'a serde_json::Value) -> (r: Option<&'a str>)
    ensures
        match spec_model_of(*v) {
            JsonModel::Str(s) => r matches Some(t) && t@ == s,
            _ => r is None,
        },
{
    v.as_str()
}

/// Relies on serde_json::Value::as_u64: the number when the value is a
/// JSON integer that fits u64, and nothing otherwise.
#[verifier::external_body]
pub(crate) fn value_as_u64(v: &serde_json::Value) -> (r: Option<u64>)
    ensures
        match spec_model_of(*v) {
            JsonModel::Num(n) => r == n,
            _ => r is None,
        },
{
    v.as_u64()
}

/// Relies on serde_json::Value::as_array: the elements when the value
/// is a JSON array, and nothing otherwise.
#[verifier::external_body]
pub(crate) fn value_as_array<'a>(v: &'a serde_json::Value) -> (r: Option<
    &'a Vec<serde_json::Value>,
>)
    ensures
        match spec_model_of(*v) {
            JsonModel::Arr(elems) => r matches Some(a) && a@.len() == elems.len() && (forall|
                i: int,
            |
                0 <= i < elems.len() ==> spec_model_of(#[trigger] a@[i]) == elems[i]),
            _ => r is None,
        },
{
    v.as_array()
}

/// Relies on serde_json::Value::is_null: whether the value is JSON null.
#[verifier::external_body]
pub(crate) fn value_is_null(v: &serde_json::Value) -> (r: bool)
    ensures
        r == (spec_model_of(*v) is Null),
{
    v.is_null()
}

/// Relies on serde_json::Value::is_object: whether the value is a JSON
/// object.
#[verifier::external_body]
pub(crate) fn value_is_object(v: &serde_json::Value) -> (r: bool)
    ensures
        r == (spec_model_of(*v) is Obj),
{
    v.is_object()
}

} // verus!
