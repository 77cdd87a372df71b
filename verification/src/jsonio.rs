use crate::jsonmodel::Json;
use vstd::prelude::*;

verus! {

// The trusted boundary to the JSON decoder. Each item below relies on
// `serde_json`; everything that interprets the decoded document against the
// administrative schema is verified code built on these contracts.

#[verifier::external_type_specification]
#[verifier::external_body]
pub struct ExValue(serde_json::Value);

/// What the JSON decoder yields for a text: its document model, or nothing
/// when the text is not decodable JSON.
pub uninterp spec fn json_of(s: Seq<char>) -> Option<Json>;

/// The document model a decoded JSON value stands for.
pub uninterp spec fn model_of(v: serde_json::Value) -> Json;

/// Relies on `serde_json::from_str::<Value>`: decodes a text into a JSON
/// document, or fails exactly when the text is not decodable JSON.
#[verifier::external_body]
pub(crate) fn parse_json(s: &str) -> (r: Option<serde_json::Value>)
    ensures
        r is Some <==> json_of(s@) is Some,
        r matches Some(v) ==> json_of(s@) == Some(model_of(v)),
{
    serde_json::from_str::<serde_json::Value>(s).ok()
}

/// Relies on `serde_json::Value::get` with a string index: the named field
/// of an object, and nothing for any other kind of value.
#[verifier::external_body]
pub(crate) fn json_get<'a>(v: &'a serde_json::Value, key: &str) -> (r: Option<
    &'a serde_json::Value,
>)
    ensures
        match model_of(*v) {
            Json::Obj(m) => {
                &&& r is Some <==> m.contains_key(key@)
                &&& (r matches Some(f) ==> model_of(*f) == m[key@])
            },
            _ => r is None,
        },
{
    v.get(key)
}

/// Relies on `serde_json::Value::as_str`: the characters of a string value,
/// and nothing for any other kind of value.
#[verifier::external_body]
pub(crate) fn json_as_str<'a>(v: &'a serde_json::Value) -> (r: Option<&'a str>)
    ensures
        match model_of(*v) {
            Json::Str(s) => r matches Some(x) && x@ == s,
            _ => r is None,
        },
{
    v.as_str()
}

/// Relies on `serde_json::Value::as_u64`: the value of a number that is an
/// unsigned integer, and nothing otherwise.
#[verifier::external_body]
pub(crate) fn json_as_u64(v: &serde_json::Value) -> (r: Option<u64>)
    ensures
        match model_of(*v) {
            Json::Num { int_val, .. } => r == int_val,
            _ => r is None,
        },
{
    v.as_u64()
}

/// Relies on `serde_json::Value::as_bool`: the value of a boolean, and
/// nothing for any other kind of value.
#[verifier::external_body]
pub(crate) fn json_as_bool(v: &serde_json::Value) -> (r: Option<bool>)
    ensures
        match model_of(*v) {
            Json::Bool(b) => r == Some(b),
            _ => r is None,
        },
{
    v.as_bool()
}

/// Relies on `serde_json::Value::is_null`: whether the value is the JSON
/// null.
#[verifier::external_body]
pub(crate) fn json_is_null(v: &serde_json::Value) -> (r: bool)
    ensures
        r == (model_of(*v) is Null),
{
    v.is_null()
}

/// Relies on `serde_json::Value::is_object`: whether the value is a JSON
/// object.
#[verifier::external_body]
pub(crate) fn json_is_object(v: &serde_json::Value) -> (r: bool)
    ensures
        r == (model_of(*v) is Obj),
{
    v.is_object()
}

/// Relies on `serde_json::Number`'s display form: the canonical text of a
/// number value, and nothing for any other kind of value.
#[verifier::external_body]
pub(crate) fn json_num_text(v: &serde_json::Value) -> (r: Option<String>)
    ensures
        match model_of(*v) {
            Json::Num { text, .. } => r matches Some(s) && s@ == text,
            _ => r is None,
        },
{
    match v {
        serde_json::Value::Number(n) => Some(n.to_string()),
        _ => None,
    }
}

/// Relies on `serde_json::Value::as_array`: the elements of an array value,
/// and nothing for any other kind of value.
#[verifier::external_body]
pub(crate) fn json_as_array<'a>(v: &'a serde_json::Value) -> (r: Option<
    &'a Vec<serde_json::Value>,
>)
    ensures
        match model_of(*v) {
            Json::Arr(items) => {
                &&& r matches Some(a)
                &&& a@.map_values(|x: serde_json::Value| model_of(x)) == items
            },
            _ => r is None,
        },
{
    v.as_array()
}

/// Relies on `serde_json::Map::keys`: the field names of an object value,
/// each exactly once, and nothing for any other kind of value. No order of
/// the names is relied on.
#[verifier::external_body]
pub(crate) fn json_object_keys(v: &serde_json::Value) -> (r: Option<Vec<String>>)
    ensures
        match model_of(*v) {
            Json::Obj(m) => {
                &&& r matches Some(ks)
                &&& (forall|i: int, j: int|
                    #![trigger ks@[i], ks@[j]]
                    0 <= i < j < ks@.len() ==> ks@[i]@ != ks@[j]@)
                &&& (forall|i: int| 0 <= i < ks@.len() ==> m.contains_key(#[trigger] ks@[i]@))
                &&& (forall|k: Seq<char>|
                    m.contains_key(k) ==> exists|i: int|
                        0 <= i < ks@.len() && #[trigger] ks@[i]@ == k)
            },
            _ => r is None,
        },
{
    match v {
        serde_json::Value::Object(m) => Some(m.keys().cloned().collect()),
        _ => None,
    }
}

} // verus!
