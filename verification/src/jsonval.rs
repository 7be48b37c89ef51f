//! Trusted boundary to the JSON values the daemon and bot report: parsing a
//! document and reading fields out of it. The decoded values are opaque here;
//! every decision over them happens in verified code that takes the plain
//! values these accessors hand out.

use vstd::prelude::*;

verus! {

#[verifier::external_type_specification]
#[verifier::external_body]
pub struct ExValue(serde_json::Value);

/// Relies on `serde_json::from_str` for `Value`: decodes a JSON document, or
/// reports the decoder's error text.
#[verifier::external_body]
pub fn parse_json(text: &str) -> (r: Result<serde_json::Value, String>) {
    match serde_json::from_str::<serde_json::Value>(text) {
        Ok(v) => Ok(v),
        Err(e) => Err(e.to_string()),
    }
}

/// Relies on `serde_json::Value::get`: the value under a key of an object,
/// when there is one.
#[verifier::external_body]
pub fn json_get<'a>(value: &'a serde_json::Value, key: &str) -> (r: Option<&'a serde_json::Value>) {
    value.get(key)
}

/// Relies on `serde_json::Value::as_bool`: the boolean a value holds, when it
/// is one.
#[verifier::external_body]
pub fn json_bool(value: &serde_json::Value) -> (r: Option<bool>) {
    value.as_bool()
}

/// Relies on `serde_json::Value::as_u64`: the unsigned integer a value holds,
/// when it is one.
#[verifier::external_body]
pub fn json_u64(value: &serde_json::Value) -> (r: Option<u64>) {
    value.as_u64()
}

/// Relies on `serde_json::Value::as_str`: the text a value holds, when it is
/// a string, copied out.
#[verifier::external_body]
pub fn json_str(value: &serde_json::Value) -> (r: Option<String>) {
    match value.as_str() {
        Some(s) => Some(s.to_string()),
        None => None,
    }
}

/// Relies on `serde_json::Value::as_array`: the elements a value holds, when
/// it is an array.
#[verifier::external_body]
pub fn json_array<'a>(value: &'a serde_json::Value) -> (r: Option<&'a Vec<serde_json::Value>>) {
    value.as_array()
}

/// Relies on `serde_json::Value::is_null`: whether the value is JSON null.
#[verifier::external_body]
pub fn json_is_null(value: &serde_json::Value) -> (r: bool) {
    value.is_null()
}

} // verus!
