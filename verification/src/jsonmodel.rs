use vstd::prelude::*;

verus! {

/// The mathematical model of a decoded JSON document.
///
/// A number is modelled by the canonical text the decoder prints for it,
/// together with its value as an unsigned integer when it has one; this
/// keeps fractional numbers representable without floating point.
/// An object is a map from field name to field value, so a duplicated field
/// name carries only its surviving value.
pub enum Json {
    Null,
    Bool(bool),
    Num { int_val: Option<u64>, text: Seq<char> },
    Str(Seq<char>),
    Arr(Seq<Json>),
    Obj(Map<Seq<char>, Json>),
}

/// Whether `j` is an object with a field named `key`.
pub open spec fn obj_has(j: Json, key: Seq<char>) -> bool {
    match j {
        Json::Obj(m) => m.contains_key(key),
        _ => false,
    }
}

/// The field named `key` of the object `j`.
pub open spec fn obj_field(j: Json, key: Seq<char>) -> Json
    recommends
        obj_has(j, key),
{
    match j {
        Json::Obj(m) => m[key],
        _ => Json::Null,
    }
}

/// Whether `j` is an object whose field `key` is a string.
pub open spec fn has_str_field(j: Json, key: Seq<char>) -> bool {
    obj_has(j, key) && obj_field(j, key) is Str
}

/// The characters of the string field `key` of `j`.
pub open spec fn str_field(j: Json, key: Seq<char>) -> Seq<char>
    recommends
        has_str_field(j, key),
{
    match obj_field(j, key) {
        Json::Str(s) => s,
        _ => Seq::empty(),
    }
}

/// Whether `j` is an object whose field `key` is a number with an unsigned
/// integer value.
pub open spec fn has_u64_field(j: Json, key: Seq<char>) -> bool {
    obj_has(j, key) && (obj_field(j, key) matches Json::Num { int_val, .. } && int_val is Some)
}

/// The unsigned integer value of the number field `key` of `j`.
pub open spec fn u64_field(j: Json, key: Seq<char>) -> u64
    recommends
        has_u64_field(j, key),
{
    match obj_field(j, key) {
        Json::Num { int_val, .. } => match int_val {
            Some(u) => u,
            None => 0,
        },
        _ => 0,
    }
}

/// Whether `j` is an object whose field `key` is a number of any kind.
pub open spec fn has_num_field(j: Json, key: Seq<char>) -> bool {
    obj_has(j, key) && obj_field(j, key) is Num
}

/// The canonical text of the number field `key` of `j`.
pub open spec fn num_text_field(j: Json, key: Seq<char>) -> Seq<char>
    recommends
        has_num_field(j, key),
{
    match obj_field(j, key) {
        Json::Num { text, .. } => text,
        _ => Seq::empty(),
    }
}

/// Whether `j` is an object whose field `key` is a boolean.
pub open spec fn has_bool_field(j: Json, key: Seq<char>) -> bool {
    obj_has(j, key) && obj_field(j, key) is Bool
}

/// The value of the boolean field `key` of `j`.
pub open spec fn bool_field(j: Json, key: Seq<char>) -> bool
    recommends
        has_bool_field(j, key),
{
    match obj_field(j, key) {
        Json::Bool(b) => b,
        _ => false,
    }
}

/// Whether every element of `items` is a string.
pub open spec fn all_strings(items: Seq<Json>) -> bool {
    forall|i: int| 0 <= i < items.len() ==> #[trigger] items[i] is Str
}

/// The characters of each element of a sequence of string values.
pub open spec fn string_items(items: Seq<Json>) -> Seq<Seq<char>> {
    items.map_values(
        |x: Json|
            match x {
                Json::Str(s) => s,
                _ => Seq::empty(),
            },
    )
}

/// Whether `j` is an object whose field `key` is an array of strings.
pub open spec fn has_str_arr_field(j: Json, key: Seq<char>) -> bool {
    obj_has(j, key) && (obj_field(j, key) matches Json::Arr(items) && all_strings(items))
}

/// The string elements of the array field `key` of `j`.
pub open spec fn str_arr_field(j: Json, key: Seq<char>) -> Seq<Seq<char>>
    recommends
        has_str_arr_field(j, key),
{
    match obj_field(j, key) {
        Json::Arr(items) => string_items(items),
        _ => Seq::empty(),
    }
}

/// Whether every value of the object map `m` is a string.
pub open spec fn all_string_values(m: Map<Seq<char>, Json>) -> bool {
    forall|k: Seq<char>| m.contains_key(k) ==> #[trigger] m[k] is Str
}

/// Whether `j` is an object whose field `key` is an object with only string
/// values.
pub open spec fn has_str_map_field(j: Json, key: Seq<char>) -> bool {
    obj_has(j, key) && (obj_field(j, key) matches Json::Obj(m) && all_string_values(m))
}

/// The field map of the object field `key` of `j`.
pub open spec fn obj_map_field(j: Json, key: Seq<char>) -> Map<Seq<char>, Json>
    recommends
        obj_has(j, key),
{
    match obj_field(j, key) {
        Json::Obj(m) => m,
        _ => Map::empty(),
    }
}

} // verus!
