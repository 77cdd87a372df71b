use crate::error::AdminError;
use crate::jsonio::{
    json_as_array, json_as_bool, json_as_str, json_as_u64, json_get, json_is_null, json_num_text,
    json_object_keys, json_of, model_of, parse_json,
};
use crate::jsonmodel::{
    all_string_values, all_strings, bool_field, has_bool_field, has_num_field, has_str_field,
    has_u64_field, num_text_field, obj_field, obj_has, str_field, string_items, u64_field, Json,
};
use vstd::prelude::*;

verus! {

/// The view of an optional string.
pub open spec fn opt_view(o: Option<String>) -> Option<Seq<char>> {
    match o {
        Some(s) => Some(s@),
        None => None,
    }
}

/// Whether the key/value pairs are exactly the entries of `m`, each value a
/// string, with no key repeated. No order is promised.
pub open spec fn str_entries_match(pairs: Seq<(String, String)>, m: Map<Seq<char>, Json>) -> bool {
    &&& (forall|i: int, j: int|
        #![trigger pairs[i], pairs[j]]
        0 <= i < j < pairs.len() ==> pairs[i].0@ != pairs[j].0@)
    &&& (forall|i: int|
        0 <= i < pairs.len() ==> m.contains_key(#[trigger] pairs[i].0@) && m[pairs[i].0@]
            == Json::Str(pairs[i].1@))
    &&& (forall|k: Seq<char>|
        #[trigger] m.contains_key(k) ==> exists|i: int|
            0 <= i < pairs.len() && (#[trigger] pairs[i]).0@ == k)
}

/// A decode error for a response body that does not have the shape the
/// operation's schema declares.
pub(crate) fn shape_error() -> (r: AdminError)
    ensures
        r is Decode,
{
    AdminError::Decode { detail: String::from_str("response body does not match the expected shape") }
}

/// The named field of an object value.
pub(crate) fn field_of<'a>(v: &'a serde_json::Value, key: &str) -> (r: Option<
    &'a serde_json::Value,
>)
    ensures
        r is Some <==> obj_has(model_of(*v), key@),
        r matches Some(f) ==> model_of(*f) == obj_field(model_of(*v), key@),
{
    json_get(v, key)
}

/// The unsigned integer value of a number field, exactly when the field is
/// there and holds one.
pub(crate) fn u64_field_of(v: &serde_json::Value, key: &str) -> (r: Option<u64>)
    ensures
        r is Some <==> has_u64_field(model_of(*v), key@),
        r matches Some(u) ==> u == u64_field(model_of(*v), key@),
{
    match field_of(v, key) {
        Some(f) => json_as_u64(f),
        None => None,
    }
}

/// The canonical text of a number field, exactly when the field is there
/// and holds a number of any kind.
pub(crate) fn num_text_field_of(v: &serde_json::Value, key: &str) -> (r: Option<String>)
    ensures
        r is Some <==> has_num_field(model_of(*v), key@),
        r matches Some(s) ==> s@ == num_text_field(model_of(*v), key@),
{
    match field_of(v, key) {
        Some(f) => json_num_text(f),
        None => None,
    }
}

/// The value of a boolean field, exactly when the field is there and holds
/// a boolean.
pub(crate) fn bool_field_of(v: &serde_json::Value, key: &str) -> (r: Option<bool>)
    ensures
        r is Some <==> has_bool_field(model_of(*v), key@),
        r matches Some(b) ==> b == bool_field(model_of(*v), key@),
{
    match field_of(v, key) {
        Some(f) => json_as_bool(f),
        None => None,
    }
}

/// The characters of a string field, exactly when the field is there and
/// holds a string.
pub(crate) fn str_field_of(v: &serde_json::Value, key: &str) -> (r: Option<String>)
    ensures
        r is Some <==> has_str_field(model_of(*v), key@),
        r matches Some(s) ==> s@ == str_field(model_of(*v), key@),
{
    match field_of(v, key) {
        Some(f) => match json_as_str(f) {
            Some(s) => Some(s.to_owned()),
            None => None,
        },
        None => None,
    }
}

/// The strings of an array of string values, exactly when every element is
/// a string.
pub(crate) fn str_items_of(a: &Vec<serde_json::Value>) -> (r: Option<Vec<String>>)
    ensures
        r is Some <==> all_strings(a@.map_values(|x: serde_json::Value| model_of(x))),
        r matches Some(out) ==> out@.map_values(|s: String| s@) == string_items(
            a@.map_values(|x: serde_json::Value| model_of(x)),
        ),
{
    let ghost ms = a@.map_values(|x: serde_json::Value| model_of(x));
    let mut out: Vec<String> = Vec::new();
    let mut i: usize = 0;
    while i < a.len()
        invariant
            0 <= i <= a.len(),
            ms == a@.map_values(|x: serde_json::Value| model_of(x)),
            ms.len() == a@.len(),
            out@.len() == i,
            forall|j: int| 0 <= j < i ==> #[trigger] ms[j] is Str,
            forall|j: int|
                0 <= j < i ==> #[trigger] out@[j]@ == (match ms[j] {
                    Json::Str(s) => s,
                    _ => Seq::<char>::empty(),
                }),
        decreases a.len() - i,
    {
        match json_as_str(&a[i]) {
            Some(s) => {
                out.push(s.to_owned());
            },
            None => {
                proof {
                    assert(!(ms[i as int] is Str));
                }
                return None;
            },
        }
        i += 1;
    }
    proof {
        assert(out@.map_values(|s: String| s@) =~= string_items(ms));
    }
    Some(out)
}

/// The key/value pairs of an object whose values are all strings, exactly
/// when the value is such an object.
pub(crate) fn str_entries_of(v: &serde_json::Value) -> (r: Option<Vec<(String, String)>>)
    ensures
        r is Some <==> (model_of(*v) matches Json::Obj(m) && all_string_values(m)),
        r matches Some(out) ==> (model_of(*v) matches Json::Obj(m) && str_entries_match(out@, m)),
{
    let keys = match json_object_keys(v) {
        Some(ks) => ks,
        None => {
            return None;
        },
    };
    let ghost m = model_of(*v)->Obj_0;
    let mut out: Vec<(String, String)> = Vec::new();
    let mut i: usize = 0;
    while i < keys.len()
        invariant
            0 <= i <= keys.len(),
            model_of(*v) is Obj,
            m == model_of(*v)->Obj_0,
            forall|p: int, q: int|
                #![trigger keys@[p], keys@[q]]
                0 <= p < q < keys@.len() ==> keys@[p]@ != keys@[q]@,
            forall|p: int| 0 <= p < keys@.len() ==> m.contains_key(#[trigger] keys@[p]@),
            forall|k: Seq<char>|
                m.contains_key(k) ==> exists|p: int| 0 <= p < keys@.len() && #[trigger] keys@[p]@
                    == k,
            out@.len() == i,
            forall|p: int| 0 <= p < i ==> (#[trigger] out@[p]).0@ == keys@[p]@,
            forall|p: int|
                0 <= p < i ==> m[(#[trigger] out@[p]).0@] == Json::Str(out@[p].1@),
        decreases keys.len() - i,
    {
        let f = match json_get(v, keys[i].as_str()) {
            Some(f) => f,
            None => {
                proof {
                    assert(false);
                }
                return None;
            },
        };
        match json_as_str(f) {
            Some(s) => {
                out.push((keys[i].clone(), s.to_owned()));
            },
            None => {
                proof {
                    assert(m.contains_key(keys@[i as int]@) && !(m[keys@[i as int]@] is Str));
                }
                return None;
            },
        }
        i += 1;
    }
    proof {
        assert forall|k: Seq<char>| m.contains_key(k) implies #[trigger] m[k] is Str by {
            let p = choose|p: int| 0 <= p < keys@.len() && #[trigger] keys@[p]@ == k;
            assert(out@[p].0@ == k);
            assert(m[out@[p].0@] is Str);
        }
        assert forall|k: Seq<char>| #[trigger] m.contains_key(k) implies exists|p: int|
            0 <= p < out@.len() && (#[trigger] out@[p]).0@ == k by {
            let p = choose|p: int| 0 <= p < keys@.len() && #[trigger] keys@[p]@ == k;
            assert(out@[p].0@ == k);
        }
    }
    Some(out)
}

/// Decodes a response body declared to be a JSON array of names.
///
/// Succeeds exactly when the body is decodable JSON and is an array whose
/// elements are all strings; the names come back in the array's order.
pub fn decode_string_list(body: &str) -> (r: Result<Vec<String>, AdminError>)
    ensures
        r is Ok <==> (json_of(body@) matches Some(j) && j matches Json::Arr(items)
            && all_strings(items)),
        r matches Ok(out) ==> (json_of(body@) matches Some(j) && j matches Json::Arr(items)
            && out@.map_values(|s: String| s@) == string_items(items)),
        r matches Err(e) ==> e is Decode,
{
    let v = match parse_json(body) {
        Some(v) => v,
        None => {
            return Err(shape_error());
        },
    };
    let a = match json_as_array(&v) {
        Some(a) => a,
        None => {
            return Err(shape_error());
        },
    };
    match str_items_of(a) {
        Some(out) => Ok(out),
        None => Err(shape_error()),
    }
}

} // verus!
