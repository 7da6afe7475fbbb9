//! The evaluator's answers: one JSON object per line, with a discriminator
//! under `type` and, for most kinds of value, a payload under `data`.
//!
//! | `type` | value    | `data`                         |
//! |--------|----------|--------------------------------|
//! | `"1"`  | Thunk    | none                           |
//! | `"1"`  | Int      | integer                        |
//! | `"2"`  | Float    | number                         |
//! | `"3"`  | Bool     | boolean                        |
//! | `"4"`  | String   | string                         |
//! | `"5"`  | Path     | string                         |
//! | `"6"`  | Null     | none                           |
//! | `"7"`  | Attrs    | array of strings               |
//! | `"8"`  | List     | non-negative integer           |
//! | `"9"`  | Function | none                           |
//! | `"10"` | External | none                           |
//!
//! The discriminator `"1"` is shared: without a payload it means Thunk, with
//! an integer payload Int. Where a kind has no payload, `data` may be missing
//! or null. Members other than `type` and `data` are not looked at.

use vstd::prelude::*;
use crate::json::{doc_view, json_doc, json_parse, double_bits, member, parse, real_bits, JsonDoc, JsonNumber};
use crate::text::chars_of;
use crate::value::{NixValue, ValueView};

verus! {

/// Why a line is no answer.
#[derive(Debug, Clone, Copy, PartialEq, Eq, Structural)]
pub enum DecodeError {
    /// The line is not a JSON document.
    NotJson,
    /// The document is not an object.
    NotAnObject,
    /// The object has no member `type`.
    MissingTag,
    /// The member `type` is not a string.
    TagNotText,
    /// The discriminator is none of those in use.
    UnknownTag,
    /// The payload does not fit the discriminator.
    BadPayload,
}

/// Whether a payload is missing or null, as it is for a kind without payload.
pub open spec fn no_payload(payload: Option<JsonDoc>) -> bool {
    payload is None || payload == Some(JsonDoc::Null)
}

/// The strings of an array of strings; nothing if an element is no string.
pub open spec fn names_of(items: Seq<JsonDoc>) -> Option<Seq<Seq<char>>> {
    if forall|i: int| 0 <= i < items.len() ==> #[trigger] items[i] is Text {
        Some(Seq::new(items.len(), |i: int| items[i]->Text_0))
    } else {
        None
    }
}

/// The value that a kind without payload stands for, if the payload is
/// missing or null.
pub open spec fn decode_unit(payload: Option<JsonDoc>, v: ValueView) -> Result<
    ValueView,
    DecodeError,
> {
    if no_payload(payload) {
        Ok(v)
    } else {
        Err(DecodeError::BadPayload)
    }
}

/// The value that a discriminator and a payload stand for.
pub open spec fn decode_payload(tag: Seq<char>, payload: Option<JsonDoc>) -> Result<
    ValueView,
    DecodeError,
> {
    if tag == "1"@ {
        match payload {
            Some(JsonDoc::Number(JsonNumber::Integer(n))) => if i64::MIN <= n <= i64::MAX {
                Ok(ValueView::Int(n as i64))
            } else {
                Err(DecodeError::BadPayload)
            },
            _ => decode_unit(payload, ValueView::Thunk),
        }
    } else if tag == "2"@ {
        match payload {
            Some(JsonDoc::Number(JsonNumber::Real(bits))) => Ok(ValueView::Float(bits)),
            Some(JsonDoc::Number(JsonNumber::Integer(n))) => Ok(ValueView::Float(double_bits(n))),
            _ => Err(DecodeError::BadPayload),
        }
    } else if tag == "3"@ {
        match payload {
            Some(JsonDoc::Bool(b)) => Ok(ValueView::Bool(b)),
            _ => Err(DecodeError::BadPayload),
        }
    } else if tag == "4"@ {
        match payload {
            Some(JsonDoc::Text(s)) => Ok(ValueView::Text(s)),
            _ => Err(DecodeError::BadPayload),
        }
    } else if tag == "5"@ {
        match payload {
            Some(JsonDoc::Text(s)) => Ok(ValueView::Path(s)),
            _ => Err(DecodeError::BadPayload),
        }
    } else if tag == "6"@ {
        decode_unit(payload, ValueView::Null)
    } else if tag == "7"@ {
        match payload {
            Some(JsonDoc::Array(items)) => match names_of(items) {
                Some(names) => Ok(ValueView::Attrs(names)),
                None => Err(DecodeError::BadPayload),
            },
            _ => Err(DecodeError::BadPayload),
        }
    } else if tag == "8"@ {
        match payload {
            Some(JsonDoc::Number(JsonNumber::Integer(n))) => if 0 <= n <= usize::MAX {
                Ok(ValueView::List(n as usize))
            } else {
                Err(DecodeError::BadPayload)
            },
            _ => Err(DecodeError::BadPayload),
        }
    } else if tag == "9"@ {
        decode_unit(payload, ValueView::Function)
    } else if tag == "10"@ {
        decode_unit(payload, ValueView::External)
    } else {
        Err(DecodeError::UnknownTag)
    }
}

/// The value that a document stands for.
pub open spec fn decode_doc(doc: JsonDoc) -> Result<ValueView, DecodeError> {
    match doc {
        JsonDoc::Object(fields) => if !fields.contains_key("type"@) {
            Err(DecodeError::MissingTag)
        } else {
            match fields["type"@] {
                JsonDoc::Text(tag) => decode_payload(
                    tag,
                    if fields.contains_key("data"@) {
                        Some(fields["data"@])
                    } else {
                        None
                    },
                ),
                _ => Err(DecodeError::TagNotText),
            }
        },
        _ => Err(DecodeError::NotAnObject),
    }
}

/// The value that a line of text stands for.
pub open spec fn decode_text(line: Seq<char>) -> Result<ValueView, DecodeError> {
    match json_parse(line) {
        Some(doc) => decode_doc(doc),
        None => Err(DecodeError::NotJson),
    }
}

/// What a decoding result holds.
pub open spec fn decoded_view(r: Result<NixValue, DecodeError>) -> Result<ValueView, DecodeError> {
    match r {
        Ok(v) => Ok(v@),
        Err(e) => Err(e),
    }
}

/// Decodes a kind without payload.
fn read_unit(payload: Option<&serde_json::Value>, v: NixValue) -> (r: Result<NixValue, DecodeError>)
    ensures
        decoded_view(r) == decode_unit(doc_view(payload), v@),
{
    match payload {
        None => Ok(v),
        Some(p) => if p.is_null() {
            Ok(v)
        } else {
            Err(DecodeError::BadPayload)
        },
    }
}

/// Decodes the payload of an attribute set: an array of strings.
fn read_names(payload: &serde_json::Value) -> (r: Option<Vec<String>>)
    ensures
        match json_doc(*payload) {
            JsonDoc::Array(items) => match names_of(items) {
                Some(names) => r matches Some(v) && v.deep_view() == names,
                None => r is None,
            },
            _ => r is None,
        },
{
    let items = match payload.as_array() {
        Some(items) => items,
        None => {
            return None;
        },
    };
    let ghost docs = json_doc(*payload)->Array_0;
    let mut names: Vec<String> = Vec::new();
    let mut i: usize = 0;
    while i < items.len()
        invariant
            i <= items.len(),
            json_doc(*payload) == JsonDoc::Array(docs),
            items@.len() == docs.len(),
            forall|j: int| 0 <= j < docs.len() ==> json_doc(#[trigger] items@[j]) == docs[j],
            names.len() == i,
            forall|j: int| 0 <= j < i ==> #[trigger] docs[j] is Text,
            forall|j: int| 0 <= j < i ==> (#[trigger] names@[j])@ == docs[j]->Text_0,
        decreases items.len() - i,
    {
        match items[i].as_str() {
            Some(s) => {
                names.push(s.to_owned());
            },
            None => {
                return None;
            },
        }
        i += 1;
    }
    Some(names)
}

/// Decodes what a discriminator and a payload stand for.
fn read_payload(tag: &str, payload: Option<&serde_json::Value>) -> (r: Result<
    NixValue,
    DecodeError,
>)
    ensures
        decoded_view(r) == decode_payload(tag@, doc_view(payload)),
{
    let chars = chars_of(tag);
    proof {
        reveal_strlit("1");
        reveal_strlit("2");
        reveal_strlit("3");
        reveal_strlit("4");
        reveal_strlit("5");
        reveal_strlit("6");
        reveal_strlit("7");
        reveal_strlit("8");
        reveal_strlit("9");
        reveal_strlit("10");
    }
    if chars.len() == 2 && chars[0] == '1' && chars[1] == '0' {
        assert(tag@ =~= "10"@);
        return read_unit(payload, NixValue::External);
    }
    if chars.len() != 1 {
        return Err(DecodeError::UnknownTag);
    }
    let c = chars[0];
    if c == '1' {
        assert(tag@ =~= "1"@);
        match payload {
            Some(p) => match p.as_i64() {
                Some(i) => Ok(NixValue::Int(i)),
                None => read_unit(payload, NixValue::Thunk),
            },
            None => Ok(NixValue::Thunk),
        }
    } else if c == '2' {
        assert(tag@ =~= "2"@);
        match payload {
            Some(p) => match real_bits(p) {
                Some(bits) => Ok(NixValue::Float(bits)),
                None => Err(DecodeError::BadPayload),
            },
            None => Err(DecodeError::BadPayload),
        }
    } else if c == '3' {
        assert(tag@ =~= "3"@);
        match payload {
            Some(p) => match p.as_bool() {
                Some(b) => Ok(NixValue::Bool(b)),
                None => Err(DecodeError::BadPayload),
            },
            None => Err(DecodeError::BadPayload),
        }
    } else if c == '4' {
        assert(tag@ =~= "4"@);
        match payload {
            Some(p) => match p.as_str() {
                Some(s) => Ok(NixValue::String(s.to_owned())),
                None => Err(DecodeError::BadPayload),
            },
            None => Err(DecodeError::BadPayload),
        }
    } else if c == '5' {
        assert(tag@ =~= "5"@);
        match payload {
            Some(p) => match p.as_str() {
                Some(s) => Ok(NixValue::Path(s.to_owned())),
                None => Err(DecodeError::BadPayload),
            },
            None => Err(DecodeError::BadPayload),
        }
    } else if c == '6' {
        assert(tag@ =~= "6"@);
        read_unit(payload, NixValue::Null)
    } else if c == '7' {
        assert(tag@ =~= "7"@);
        match payload {
            Some(p) => match read_names(p) {
                Some(names) => Ok(NixValue::Attrs(names)),
                None => Err(DecodeError::BadPayload),
            },
            None => Err(DecodeError::BadPayload),
        }
    } else if c == '8' {
        assert(tag@ =~= "8"@);
        match payload {
            Some(p) => match p.as_u64() {
                Some(n) => if n <= usize::MAX as u64 {
                    Ok(NixValue::List(n as usize))
                } else {
                    Err(DecodeError::BadPayload)
                },
                None => Err(DecodeError::BadPayload),
            },
            None => Err(DecodeError::BadPayload),
        }
    } else if c == '9' {
        assert(tag@ =~= "9"@);
        read_unit(payload, NixValue::Function)
    } else {
        Err(DecodeError::UnknownTag)
    }
}

/// Decodes a parsed document.
pub fn decode_value(doc: &serde_json::Value) -> (r: Result<NixValue, DecodeError>)
    ensures
        decoded_view(r) == decode_doc(json_doc(*doc)),
{
    if !doc.is_object() {
        return Err(DecodeError::NotAnObject);
    }
    let tag = match member(doc, "type") {
        Some(t) => match t.as_str() {
            Some(s) => s,
            None => {
                return Err(DecodeError::TagNotText);
            },
        },
        None => {
            return Err(DecodeError::MissingTag);
        },
    };
    read_payload(tag, member(doc, "data"))
}

/// Decodes one line of the evaluator's output.
pub fn decode_line(line: &str) -> (r: Result<NixValue, DecodeError>)
    ensures
        decoded_view(r) == decode_text(line@),
{
    match parse(line) {
        Ok(doc) => decode_value(&doc),
        Err(_) => Err(DecodeError::NotJson),
    }
}

} // verus!
