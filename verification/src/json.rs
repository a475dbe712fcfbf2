//! Trusted access to `serde_json`: the opaque structured value type, names
//! for what parsing and field reads yield, and thin wrappers around the
//! calls the loader and the slice-metadata reader make. Everything here is
//! believed, not verified; each wrapper only converts between the crate's
//! plain values and the library's types.

use vstd::prelude::*;

verus! {

/// Declares serde_json::Value to the verifier: an opaque structured value,
/// read only through the wrappers below.
#[verifier::external_type_specification]
#[verifier::external_body]
pub struct ExValue(serde_json::Value);

/// Whether a byte sequence is a valid JSON document. Parsing depends on
/// the bytes alone, so success has a name; what the document holds does
/// not (the parsed value is read through the field names below).
pub uninterp spec fn json_doc_ok(bytes: Seq<u8>) -> bool;

/// Whether a character sequence is a valid JSON document.
pub uninterp spec fn json_text_ok(s: Seq<char>) -> bool;

/// The string content of the named field of a structured value, absent
/// when the value is no object, has no such field, or the field is not a
/// string. A function of the value and key alone.
pub uninterp spec fn json_str_field_of(v: serde_json::Value, key: Seq<char>) -> Option<Seq<char>>;

/// The boolean content of the named field of a structured value, absent
/// when the value is no object, has no such field, or the field is not a
/// boolean. A function of the value and key alone.
pub uninterp spec fn json_bool_field_of(v: serde_json::Value, key: Seq<char>) -> Option<bool>;

/// The length of the named array field of a structured value, absent when
/// the value is no object, has no such field, or the field is not an
/// array. A function of the value and key alone.
pub uninterp spec fn json_array_field_len(v: serde_json::Value, key: Seq<char>) -> Option<int>;

/// Relies on serde_json::from_slice::<Value>: parses a JSON document from
/// bytes; exactly the valid documents parse, and a malformed one fails
/// rather than panics.
#[verifier::external_body]
pub(crate) fn json_from_slice(bytes: &[u8]) -> (r: Option<serde_json::Value>)
    ensures
        (r is Some) == json_doc_ok(bytes@),
{
    match serde_json::from_slice::<serde_json::Value>(bytes) {
        Ok(v) => Some(v),
        Err(_) => None,
    }
}

/// Relies on serde_json::from_str::<Value>: parses a JSON document from a
/// string; exactly the valid documents parse, and a malformed one fails
/// rather than panics.
#[verifier::external_body]
pub(crate) fn json_from_str(s: &str) -> (r: Option<serde_json::Value>)
    ensures
        (r is Some) == json_text_ok(s@),
{
    match serde_json::from_str::<serde_json::Value>(s) {
        Ok(v) => Some(v),
        Err(_) => None,
    }
}

/// Relies on serde_json::Value::get with a string index: the named field
/// of an object, absent when the value is no object or has no such field.
#[verifier::external_body]
pub(crate) fn json_get<'a>(v: &'a serde_json::Value, key: &str) -> (r: Option<
    &'a serde_json::Value,
>) {
    v.get(key)
}

/// Relies on serde_json::Value::get and Value::as_str: the string content
/// of the named field, as `json_str_field_of` names it.
#[verifier::external_body]
pub(crate) fn json_get_str(v: &serde_json::Value, key: &str) -> (r: Option<String>)
    ensures
        (match r {
            Some(s) => json_str_field_of(*v, key@) == Some(s@),
            None => json_str_field_of(*v, key@) is None,
        }),
{
    match v.get(key) {
        Some(f) => match f.as_str() {
            Some(s) => Some(s.to_owned()),
            None => None,
        },
        None => None,
    }
}

/// Relies on serde_json::Value::get and Value::as_bool: the boolean
/// content of the named field, as `json_bool_field_of` names it.
#[verifier::external_body]
pub(crate) fn json_get_bool(v: &serde_json::Value, key: &str) -> (r: Option<bool>)
    ensures
        r == json_bool_field_of(*v, key@),
{
    match v.get(key) {
        Some(f) => f.as_bool(),
        None => None,
    }
}

/// Relies on serde_json::Value::get and Value::as_array: the elements of
/// the named array field; its length is as `json_array_field_len` names
/// it.
#[verifier::external_body]
pub(crate) fn json_get_array<'a>(v: &'a serde_json::Value, key: &str) -> (r: Option<
    &'a Vec<serde_json::Value>,
>)
    ensures
        (r is Some) == (json_array_field_len(*v, key@) is Some),
        (r matches Some(a) ==> json_array_field_len(*v, key@) == Some(a@.len() as int)),
{
    match v.get(key) {
        Some(f) => f.as_array(),
        None => None,
    }
}

/// Relies on serde_json::Value::as_str: the string content of a string
/// value, absent for every other kind of value.
#[verifier::external_body]
pub(crate) fn json_as_str(v: &serde_json::Value) -> (r: Option<String>) {
    match v.as_str() {
        Some(s) => Some(s.to_owned()),
        None => None,
    }
}

/// Relies on serde_json::Value::as_bool: the content of a boolean value,
/// absent for every other kind of value.
#[verifier::external_body]
pub(crate) fn json_as_bool(v: &serde_json::Value) -> (r: Option<bool>) {
    v.as_bool()
}

/// Relies on serde_json::Value::as_i64: the content of an integer number
/// value when it fits in an `i64`, absent otherwise.
#[verifier::external_body]
pub(crate) fn json_as_i64(v: &serde_json::Value) -> (r: Option<i64>) {
    v.as_i64()
}

/// Relies on serde_json::Value::as_array: the elements of an array value,
/// absent for every other kind of value.
#[verifier::external_body]
pub(crate) fn json_as_array<'a>(v: &'a serde_json::Value) -> (r: Option<
    &'a Vec<serde_json::Value>,
>) {
    v.as_array()
}

/// Relies on serde_json::Value::is_null: whether the value is JSON null.
#[verifier::external_body]
pub(crate) fn json_is_null(v: &serde_json::Value) -> (r: bool) {
    v.is_null()
}

} // verus!
