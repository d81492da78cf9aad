//! A minimal model of JSON documents, and the trusted boundary to
//! `serde_json` through which event payloads and provider responses are
//! parsed.
//!
//! Only the step from text to a JSON tree is trusted; every schema decision —
//! which fields a record needs, of which types, which are optional — is made
//! by verified code in the modules that use this one.

use vstd::prelude::*;

verus! {

/// Specification-level model of a JSON document.
///
/// A number is modelled by what `serde_json`'s integer accessors observe of
/// it: its value as a `u64` and as an `i64`, when it has one. A number that
/// fits neither (a float, or an integer out of both ranges) is modelled as
/// `Num { as_u64: None, as_i64: None }`.
pub enum JsonModel {
    Null,
    Bool { b: bool },
    Num { as_u64: Option<u64>, as_i64: Option<i64> },
    Text { chars: Seq<char> },
    Arr { items: Seq<JsonModel> },
    Obj { fields: Map<Seq<char>, JsonModel> },
}

#[verifier::external_type_specification]
#[verifier::external_body]
pub struct ExJsonValue(serde_json::Value);

#[verifier::external_type_specification]
#[verifier::external_body]
pub struct ExJsonError(serde_json::Error);

/// The JSON document a `serde_json::Value` holds. All trusted accessors below
/// speak of a value through this one model.
pub uninterp spec fn json_model(v: serde_json::Value) -> JsonModel;

/// What parsing a given text as JSON yields: `None` when the text is not
/// valid JSON. The result depends on the text alone.
pub uninterp spec fn json_of(s: Seq<char>) -> Option<JsonModel>;

/// Relies on `serde_json::from_str::<serde_json::Value>`: parses a text as
/// one JSON document; the result depends on the text alone.
#[verifier::external_body]
pub fn parse_json(s: &str) -> (r: Result<serde_json::Value, serde_json::Error>)
    ensures
        r is Ok <==> json_of(s@) is Some,
        r matches Ok(v) ==> json_model(v) == json_of(s@)->Some_0,
{
    serde_json::from_str(s)
}

/// Relies on `serde_json::Value::get` with a string index: looks a field up
/// in a JSON object, and returns `None` on a missing field or a non-object.
#[verifier::external_body]
pub fn json_get<'a>(v: &'a serde_json::Value, key: &str) -> (r: Option<&'a serde_json::Value>)
    ensures
        match json_model(*v) {
            JsonModel::Obj { fields } => {
                &&& r is Some <==> fields.dom().contains(key@)
                &&& (r matches Some(f) ==> fields.dom().contains(key@) && json_model(*f)
                    == fields[key@])
            },
            _ => r is None,
        },
{
    v.get(key)
}

/// Relies on `serde_json::Value::as_str`: `Some` exactly on a JSON string.
/// The borrowed characters are copied into an owned `String`.
#[verifier::external_body]
pub fn json_as_string(v: &serde_json::Value) -> (r: Option<String>)
    ensures
        match json_model(*v) {
            JsonModel::Text { chars } => r matches Some(t) && t@ == chars,
            _ => r is None,
        },
{
    v.as_str().map(|s| s.to_string())
}

/// Relies on `serde_json::Value::as_u64`: the value of a JSON number as a
/// `u64` when it is an integer in range, `None` otherwise.
#[verifier::external_body]
pub fn json_as_u64(v: &serde_json::Value) -> (r: Option<u64>)
    ensures
        match json_model(*v) {
            JsonModel::Num { as_u64, .. } => r == as_u64,
            _ => r is None,
        },
{
    v.as_u64()
}

/// Relies on `serde_json::Value::as_i64`: the value of a JSON number as an
/// `i64` when it is an integer in range, `None` otherwise.
#[verifier::external_body]
pub fn json_as_i64(v: &serde_json::Value) -> (r: Option<i64>)
    ensures
        match json_model(*v) {
            JsonModel::Num { as_i64, .. } => r == as_i64,
            _ => r is None,
        },
{
    v.as_i64()
}

/// Relies on `serde_json::Value::as_bool`: `Some` exactly on a JSON boolean.
#[verifier::external_body]
pub fn json_as_bool(v: &serde_json::Value) -> (r: Option<bool>)
    ensures
        match json_model(*v) {
            JsonModel::Bool { b } => r == Some(b),
            _ => r is None,
        },
{
    v.as_bool()
}

/// Relies on `serde_json::Value::is_null`: true exactly on JSON `null`.
#[verifier::external_body]
pub fn json_is_null(v: &serde_json::Value) -> (r: bool)
    ensures
        r <==> json_model(*v) is Null,
{
    v.is_null()
}

/// Relies on `serde_json::Value::as_array`: `Some` exactly on a JSON array,
/// borrowing its elements in order.
#[verifier::external_body]
pub fn json_as_array<'a>(v: &'a serde_json::Value) -> (r: Option<&'a Vec<serde_json::Value>>)
    ensures
        match json_model(*v) {
            JsonModel::Arr { items } => r matches Some(a) && a@.len() == items.len() && (forall|i: int|
                0 <= i < items.len() ==> #[trigger] json_model(a@[i]) == items[i]),
            _ => r is None,
        },
{
    v.as_array()
}

/// Relies on `serde_json::Error`'s `Display` implementation: a human-readable
/// description of a parse failure. Nothing is assumed of the text.
#[verifier::external_body]
pub fn json_error_text(e: &serde_json::Error) -> String {
    e.to_string()
}

// What follows is verified code: field accessors over the model above, shared
// by every schema in the crate.

/// The field `k` of a JSON object, or `None` on a missing field or a
/// non-object.
pub open spec fn sub_field(j: JsonModel, k: Seq<char>) -> Option<JsonModel> {
    match j {
        JsonModel::Obj { fields } => if fields.dom().contains(k) {
            Some(fields[k])
        } else {
            None
        },
        _ => None,
    }
}

/// A required string field: present and a JSON string.
pub open spec fn str_field(j: JsonModel, k: Seq<char>) -> Option<Seq<char>> {
    match sub_field(j, k) {
        Some(JsonModel::Text { chars }) => Some(chars),
        _ => None,
    }
}

/// A required unsigned 32-bit field: present, an integer, and in range.
pub open spec fn u32_field(j: JsonModel, k: Seq<char>) -> Option<u32> {
    match sub_field(j, k) {
        Some(JsonModel::Num { as_u64: Some(n), .. }) => if n <= u32::MAX {
            Some(n as u32)
        } else {
            None
        },
        _ => None,
    }
}

/// A required signed 64-bit field: present, an integer, and in range.
pub open spec fn i64_field(j: JsonModel, k: Seq<char>) -> Option<i64> {
    match sub_field(j, k) {
        Some(JsonModel::Num { as_i64: Some(n), .. }) => Some(n),
        _ => None,
    }
}

/// A required boolean field: present and a JSON boolean.
pub open spec fn bool_field(j: JsonModel, k: Seq<char>) -> Option<bool> {
    match sub_field(j, k) {
        Some(JsonModel::Bool { b }) => Some(b),
        _ => None,
    }
}

/// An optional unsigned 32-bit field: an absent or null field is a valid
/// absence, any other non-integer shape is a schema violation (outer `None`).
pub open spec fn opt_u32_field(j: JsonModel, k: Seq<char>) -> Option<Option<u32>> {
    match sub_field(j, k) {
        Some(JsonModel::Null) => Some(None),
        Some(JsonModel::Num { as_u64: Some(n), .. }) => if n <= u32::MAX {
            Some(Some(n as u32))
        } else {
            None
        },
        Some(_) => None,
        None => if j is Obj {
            Some(None)
        } else {
            None
        },
    }
}

/// An optional boolean field, with the same reading of absence as
/// `opt_u32_field`.
pub open spec fn opt_bool_field(j: JsonModel, k: Seq<char>) -> Option<Option<bool>> {
    match sub_field(j, k) {
        Some(JsonModel::Null) => Some(None),
        Some(JsonModel::Bool { b }) => Some(Some(b)),
        Some(_) => None,
        None => if j is Obj {
            Some(None)
        } else {
            None
        },
    }
}

/// Read a required string field.
pub fn get_str_field(v: &serde_json::Value, key: &str) -> (r: Option<String>)
    ensures
        match str_field(json_model(*v), key@) {
            Some(chars) => r matches Some(t) && t@ == chars,
            None => r is None,
        },
{
    match json_get(v, key) {
        Some(f) => json_as_string(f),
        None => None,
    }
}

/// Read a required unsigned 32-bit field.
pub fn get_u32_field(v: &serde_json::Value, key: &str) -> (r: Option<u32>)
    ensures
        r == u32_field(json_model(*v), key@),
{
    match json_get(v, key) {
        Some(f) => match json_as_u64(f) {
            Some(n) => if n <= u32::MAX as u64 {
                Some(n as u32)
            } else {
                None
            },
            None => None,
        },
        None => None,
    }
}

/// Read a required signed 64-bit field.
pub fn get_i64_field(v: &serde_json::Value, key: &str) -> (r: Option<i64>)
    ensures
        r == i64_field(json_model(*v), key@),
{
    match json_get(v, key) {
        Some(f) => json_as_i64(f),
        None => None,
    }
}

/// Read a required boolean field.
pub fn get_bool_field(v: &serde_json::Value, key: &str) -> (r: Option<bool>)
    ensures
        r == bool_field(json_model(*v), key@),
{
    match json_get(v, key) {
        Some(f) => json_as_bool(f),
        None => None,
    }
}

/// Read an optional unsigned 32-bit field of an object.
pub fn get_opt_u32_field(v: &serde_json::Value, key: &str) -> (r: Option<Option<u32>>)
    requires
        json_model(*v) is Obj,
    ensures
        r == opt_u32_field(json_model(*v), key@),
{
    match json_get(v, key) {
        Some(f) => if json_is_null(f) {
            Some(None)
        } else {
            match json_as_u64(f) {
                Some(n) => if n <= u32::MAX as u64 {
                    Some(Some(n as u32))
                } else {
                    None
                },
                None => None,
            }
        },
        None => Some(None),
    }
}

/// Read an optional boolean field of an object.
pub fn get_opt_bool_field(v: &serde_json::Value, key: &str) -> (r: Option<Option<bool>>)
    requires
        json_model(*v) is Obj,
    ensures
        r == opt_bool_field(json_model(*v), key@),
{
    match json_get(v, key) {
        Some(f) => if json_is_null(f) {
            Some(None)
        } else {
            match json_as_bool(f) {
                Some(b) => Some(Some(b)),
                None => None,
            }
        },
        None => Some(None),
    }
}

} // verus!
