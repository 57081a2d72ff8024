use vstd::prelude::*;

verus! {

/// A JSON document as serde_json holds it; opaque here, carried and queried through the items below.
#[verifier::external_type_specification]
#[verifier::external_body]
pub struct ExJsonValue(serde_json::Value);

/// The error that serde_json reports when it cannot serialise or parse a document.
#[verifier::external_type_specification]
#[verifier::external_body]
pub struct ExJsonError(serde_json::Error);

/// Relies on serde_json's `Value::get` with a string index: the member of an object under `key`,
/// `None` for a missing member or a value that is not an object.
#[verifier::external_body]
pub(crate) fn member<'a>(v: &'a serde_json::Value, key: &str) -> (r: Option<&'a serde_json::Value>) {
    v.get(key)
}

/// Relies on serde_json's `Value::as_str`: the text of a string value, `None` for any other value.
pub assume_specification<'a>[ serde_json::Value::as_str ](v: &'a serde_json::Value) -> (r: Option<&'a str>);

/// Relies on serde_json's `Value::as_array`: the elements of an array value, `None` for any other value.
pub assume_specification<'a>[ serde_json::Value::as_array ](v: &'a serde_json::Value) -> (r: Option<&'a Vec<serde_json::Value>>);

/// Relies on serde_json's `Value::as_u64`: the number, where the value is a non-negative integer.
pub assume_specification[ serde_json::Value::as_u64 ](v: &serde_json::Value) -> (r: Option<u64>);

/// Relies on serde_json's `to_string_pretty` on a `Value`: the indented JSON text of the document.
#[verifier::external_body]
pub(crate) fn to_pretty_text(v: &serde_json::Value) -> (r: Result<String, serde_json::Error>) {
    serde_json::to_string_pretty(v)
}

/// Relies on serde_json's `Value::clone`.
#[verifier::external_body]
pub(crate) fn copy_value(v: &serde_json::Value) -> (r: serde_json::Value) {
    v.clone()
}

/// Relies on serde_json's `Value::Null`, the document `null`.
#[verifier::external_body]
pub(crate) fn null_value() -> (r: serde_json::Value) {
    serde_json::Value::Null
}

/// Relies on serde_json's `Error`'s `Display` (through `ToString`): its description.
#[verifier::external_body]
pub(crate) fn error_text(e: &serde_json::Error) -> (r: String) {
    e.to_string()
}

/// The text of member `key` when it is a string; the empty string otherwise.
pub fn member_text(v: &serde_json::Value, key: &str) -> (r: String) {
    match member(v, key) {
        Some(m) => match m.as_str() {
            Some(s) => s.to_owned(),
            None => String::new(),
        },
        None => String::new(),
    }
}

/// The string elements of member `key` when it is an array, in order; other elements are skipped.
pub fn member_texts(v: &serde_json::Value, key: &str) -> (r: Vec<String>) {
    let mut out: Vec<String> = Vec::new();
    match member(v, key) {
        Some(m) => match m.as_array() {
            Some(items) => {
                let mut i: usize = 0;
                while i < items.len()
                    invariant
                        i <= items@.len(),
                    decreases items@.len() - i,
                {
                    match items[i].as_str() {
                        Some(s) => out.push(s.to_owned()),
                        None => {},
                    }
                    i = i + 1;
                }
            },
            None => {},
        },
        None => {},
    }
    out
}

/// Member `key` as a non-negative integer, `None` where it is missing or of another kind.
pub fn member_u64(v: &serde_json::Value, key: &str) -> (r: Option<u64>) {
    match member(v, key) {
        Some(m) => m.as_u64(),
        None => None,
    }
}

/// The text of member `key`, `None` where it is missing or not a string.
pub fn member_str(v: &serde_json::Value, key: &str) -> (r: Option<String>) {
    match member(v, key) {
        Some(m) => match m.as_str() {
            Some(s) => Some(s.to_owned()),
            None => None,
        },
        None => None,
    }
}

} // verus!
