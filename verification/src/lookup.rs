use crate::decode::{field_of, opt_view, shape_error};
use crate::error::AdminError;
use crate::jsonio::{json_as_str, json_is_null, json_is_object, json_of, model_of, parse_json};
use crate::jsonmodel::{has_str_field, obj_field, obj_has, str_field, Json};
use vstd::prelude::*;

verus! {

/// Where a broker can be reached for a topic.
///
/// Every field is optional because a broker need not expose every listener.
/// Field names on the wire are the camelCase forms named in the decoding
/// contract.
#[derive(Debug)]
pub struct LookupData {
    pub broker_url: Option<String>,
    pub broker_url_tls: Option<String>,
    pub http_url: Option<String>,
    pub http_url_tls: Option<String>,
    pub native_url: Option<String>,
}

/// Whether the field `key` of `j`, if there at all, is a string or null.
pub open spec fn opt_str_field_ok(j: Json, key: Seq<char>) -> bool {
    obj_has(j, key) ==> (obj_field(j, key) is Str || obj_field(j, key) is Null)
}

/// The decoded form of the optional string field `key` of `j`: its
/// characters when it is there and a string, nothing when it is missing or
/// null.
pub open spec fn opt_str_field_val(j: Json, key: Seq<char>) -> Option<Seq<char>> {
    if has_str_field(j, key) {
        Some(str_field(j, key))
    } else {
        None
    }
}

/// Whether `j` has the shape a broker-lookup response is declared with: an
/// object whose listener fields, where given, are strings or null.
pub open spec fn lookup_shape_ok(j: Json) -> bool {
    &&& j is Obj
    &&& opt_str_field_ok(j, "brokerUrl"@)
    &&& opt_str_field_ok(j, "brokerUrlTls"@)
    &&& opt_str_field_ok(j, "httpUrl"@)
    &&& opt_str_field_ok(j, "httpUrlTls"@)
    &&& opt_str_field_ok(j, "nativeUrl"@)
}

impl LookupData {
    /// Whether this record holds exactly the listener fields of `j`.
    pub open spec fn matches_json(self, j: Json) -> bool {
        &&& opt_view(self.broker_url) == opt_str_field_val(j, "brokerUrl"@)
        &&& opt_view(self.broker_url_tls) == opt_str_field_val(j, "brokerUrlTls"@)
        &&& opt_view(self.http_url) == opt_str_field_val(j, "httpUrl"@)
        &&& opt_view(self.http_url_tls) == opt_str_field_val(j, "httpUrlTls"@)
        &&& opt_view(self.native_url) == opt_str_field_val(j, "nativeUrl"@)
    }
}

/// The optional string field `key` of `v`: the string when it is there,
/// nothing when it is missing or null, and a refusal when it holds any
/// other kind of value.
fn opt_str_field_of(v: &serde_json::Value, key: &str) -> (r: Result<Option<String>, ()>)
    ensures
        r is Ok <==> opt_str_field_ok(model_of(*v), key@),
        r matches Ok(o) ==> opt_view(o) == opt_str_field_val(model_of(*v), key@),
{
    match field_of(v, key) {
        None => Ok(None),
        Some(f) => match json_as_str(f) {
            Some(s) => Ok(Some(s.to_owned())),
            None => {
                if json_is_null(f) {
                    Ok(None)
                } else {
                    Err(())
                }
            },
        },
    }
}

/// Decodes a broker-lookup response body.
///
/// Succeeds exactly when the body is decodable JSON of the declared shape,
/// and then returns each listener URL exactly as the response gave it.
pub fn decode_lookup_data(body: &str) -> (r: Result<LookupData, AdminError>)
    ensures
        r is Ok <==> (json_of(body@) matches Some(j) && lookup_shape_ok(j)),
        r matches Ok(d) ==> (json_of(body@) matches Some(j) && d.matches_json(j)),
        r matches Err(e) ==> e is Decode,
{
    let v = match parse_json(body) {
        Some(v) => v,
        None => {
            return Err(shape_error());
        },
    };
    if !json_is_object(&v) {
        return Err(shape_error());
    }
    let broker_url = match opt_str_field_of(&v, "brokerUrl") {
        Ok(o) => o,
        Err(_) => {
            return Err(shape_error());
        },
    };
    let broker_url_tls = match opt_str_field_of(&v, "brokerUrlTls") {
        Ok(o) => o,
        Err(_) => {
            return Err(shape_error());
        },
    };
    let http_url = match opt_str_field_of(&v, "httpUrl") {
        Ok(o) => o,
        Err(_) => {
            return Err(shape_error());
        },
    };
    let http_url_tls = match opt_str_field_of(&v, "httpUrlTls") {
        Ok(o) => o,
        Err(_) => {
            return Err(shape_error());
        },
    };
    let native_url = match opt_str_field_of(&v, "nativeUrl") {
        Ok(o) => o,
        Err(_) => {
            return Err(shape_error());
        },
    };
    Ok(LookupData { broker_url, broker_url_tls, http_url, http_url_tls, native_url })
}

} // verus!
