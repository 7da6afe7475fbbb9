//! JSON documents as `serde_json` reads them. Nothing in this file is proved:
//! each item states what the `serde_json` source shows of one of its
//! functions, over a mathematical model of a document.

use vstd::prelude::*;

verus! {

/// A JSON number: an integer, or else a real number known by the bit pattern
/// of its 64-bit floating-point value.
pub enum JsonNumber {
    Integer(int),
    Real(u64),
}

/// A JSON document as a mathematical value.
pub enum JsonDoc {
    Null,
    Bool(bool),
    Number(JsonNumber),
    Text(Seq<char>),
    Array(Seq<JsonDoc>),
    Object(Map<Seq<char>, JsonDoc>),
}

/// `serde_json::Value`, a parsed document. Verified code holds it and reads
/// it through the functions below.
#[verifier::external_type_specification]
#[verifier::external_body]
pub struct ExValue(serde_json::Value);

/// `serde_json::Error`, the reason a text is no JSON document.
#[verifier::external_type_specification]
#[verifier::external_body]
pub struct ExError(serde_json::Error);

/// The document that `serde_json::from_str` reads from a text, if it reads
/// one.
pub uninterp spec fn json_parse(text: Seq<char>) -> Option<JsonDoc>;

/// The document that a `serde_json::Value` holds.
pub uninterp spec fn json_doc(v: serde_json::Value) -> JsonDoc;

/// The bit pattern of the 64-bit floating-point number that
/// `serde_json::Value::as_f64` gives for the integer `n`.
pub uninterp spec fn double_bits(n: int) -> u64;

/// The document behind an optional reference to a value.
pub open spec fn doc_view(r: Option<&serde_json::Value>) -> Option<JsonDoc> {
    match r {
        Some(v) => Some(json_doc(*v)),
        None => None,
    }
}

/// The characters behind an optional string slice.
pub open spec fn text_view(r: Option<&str>) -> Option<Seq<char>> {
    match r {
        Some(s) => Some(s@),
        None => None,
    }
}

/// The documents behind an optional reference to a vector of values.
pub open spec fn items_view(r: Option<&Vec<serde_json::Value>>) -> Option<Seq<JsonDoc>> {
    match r {
        Some(items) => Some(Seq::new(items@.len(), |i: int| json_doc(items@[i]))),
        None => None,
    }
}

/// Calls `serde_json::from_str` for a `serde_json::Value`. The result depends
/// on the text alone: the document read, or an error where the text is no
/// single JSON document.
#[verifier::external_body]
pub(crate) fn parse(text: &str) -> (r: Result<serde_json::Value, serde_json::Error>)
    ensures
        match r {
            Ok(v) => json_parse(text@) == Some(json_doc(v)),
            Err(_) => json_parse(text@) is None,
        },
{
    serde_json::from_str::<serde_json::Value>(text)
}

/// Calls `serde_json::Value::get` with a string key: the member of that name
/// where the value is an object that has one, and nothing otherwise.
#[verifier::external_body]
pub(crate) fn member<'a>(v: &'a serde_json::Value, key: &str) -> (r: Option<&'a serde_json::Value>)
    ensures
        doc_view(r) == match json_doc(*v) {
            JsonDoc::Object(fields) => if fields.contains_key(key@) {
                Some(fields[key@])
            } else {
                None
            },
            _ => None,
        },
{
    v.get(key)
}

/// Calls `serde_json::Value::as_f64` and takes the bits of what it gives:
/// every number has a floating-point value, an integer the one it converts
/// to, and nothing else has one.
#[verifier::external_body]
pub(crate) fn real_bits(v: &serde_json::Value) -> (r: Option<u64>)
    ensures
        r == match json_doc(*v) {
            JsonDoc::Number(JsonNumber::Real(bits)) => Some(bits),
            JsonDoc::Number(JsonNumber::Integer(n)) => Some(double_bits(n)),
            _ => None,
        },
{
    v.as_f64().map(|x| x.to_bits())
}

/// `serde_json::Value::is_object` tells whether the value is an object.
pub assume_specification[ serde_json::Value::is_object ](v: &serde_json::Value) -> (r: bool)
    ensures
        r == (json_doc(*v) is Object),
;

/// `serde_json::Value::is_null` tells whether the value is null.
pub assume_specification[ serde_json::Value::is_null ](v: &serde_json::Value) -> (r: bool)
    ensures
        r == (json_doc(*v) is Null),
;

/// `serde_json::Value::as_bool` gives the boolean of a boolean value, and
/// nothing for any other.
pub assume_specification[ serde_json::Value::as_bool ](v: &serde_json::Value) -> (r: Option<bool>)
    ensures
        r == match json_doc(*v) {
            JsonDoc::Bool(b) => Some(b),
            _ => None,
        },
;

/// `serde_json::Value::as_i64` gives the integer of a number that is an
/// integer within the signed 64-bit range, and nothing otherwise.
pub assume_specification[ serde_json::Value::as_i64 ](v: &serde_json::Value) -> (r: Option<i64>)
    ensures
        r == match json_doc(*v) {
            JsonDoc::Number(JsonNumber::Integer(n)) => if i64::MIN <= n <= i64::MAX {
                Some(n as i64)
            } else {
                None
            },
            _ => None,
        },
;

/// `serde_json::Value::as_u64` gives the integer of a number that is an
/// integer within the unsigned 64-bit range, and nothing otherwise.
pub assume_specification[ serde_json::Value::as_u64 ](v: &serde_json::Value) -> (r: Option<u64>)
    ensures
        r == match json_doc(*v) {
            JsonDoc::Number(JsonNumber::Integer(n)) => if 0 <= n <= u64::MAX {
                Some(n as u64)
            } else {
                None
            },
            _ => None,
        },
;

/// `serde_json::Value::as_str` gives the characters of a string value, and
/// nothing for any other.
pub assume_specification<'a>[ serde_json::Value::as_str ](v: &'a serde_json::Value) -> (r: Option<
    &'a str,
>)
    ensures
        text_view(r) == match json_doc(*v) {
            JsonDoc::Text(s) => Some(s),
            _ => None,
        },
;

/// `serde_json::Value::as_array` gives the elements of an array value, in
/// order, and nothing for any other.
pub assume_specification<'a>[ serde_json::Value::as_array ](v: &'a serde_json::Value) -> (r: Option<
    &'a Vec<serde_json::Value>,
>)
    ensures
        items_view(r) == match json_doc(*v) {
            JsonDoc::Array(items) => Some(items),
            _ => None,
        },
;

} // verus!
