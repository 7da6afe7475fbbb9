//! What holds of decoding: every value has a document that decodes to it.

use vstd::prelude::*;
use crate::codec::{decode_doc, decode_payload, names_of, DecodeError};
use crate::json::{JsonDoc, JsonNumber};
use crate::value::ValueView;

verus! {

/// The discriminator under which a value is written.
pub open spec fn tag_of(v: ValueView) -> Seq<char> {
    match v {
        ValueView::Thunk => "1"@,
        ValueView::Int(_) => "1"@,
        ValueView::Float(_) => "2"@,
        ValueView::Bool(_) => "3"@,
        ValueView::Text(_) => "4"@,
        ValueView::Path(_) => "5"@,
        ValueView::Null => "6"@,
        ValueView::Attrs(_) => "7"@,
        ValueView::List(_) => "8"@,
        ValueView::Function => "9"@,
        ValueView::External => "10"@,
    }
}

/// The payload with which a value is written, if its kind has one.
pub open spec fn payload_of(v: ValueView) -> Option<JsonDoc> {
    match v {
        ValueView::Int(i) => Some(JsonDoc::Number(JsonNumber::Integer(i as int))),
        ValueView::Float(bits) => Some(JsonDoc::Number(JsonNumber::Real(bits))),
        ValueView::Bool(b) => Some(JsonDoc::Bool(b)),
        ValueView::Text(s) => Some(JsonDoc::Text(s)),
        ValueView::Path(s) => Some(JsonDoc::Text(s)),
        ValueView::Attrs(names) => Some(
            JsonDoc::Array(Seq::new(names.len(), |i: int| JsonDoc::Text(names[i]))),
        ),
        ValueView::List(n) => Some(JsonDoc::Number(JsonNumber::Integer(n as int))),
        _ => None,
    }
}

/// The document as which a value is written: an object with the
/// discriminator under `type` and the payload, if there is one, under
/// `data`.
pub open spec fn encode_doc(v: ValueView) -> JsonDoc {
    let tagged = Map::<Seq<char>, JsonDoc>::empty().insert("type"@, JsonDoc::Text(tag_of(v)));
    match payload_of(v) {
        Some(payload) => JsonDoc::Object(tagged.insert("data"@, payload)),
        None => JsonDoc::Object(tagged),
    }
}

/// The discriminators are ten different texts.
pub proof fn lemma_tags_differ()
    ensures
        "1"@ != "2"@ && "1"@ != "3"@ && "1"@ != "4"@ && "1"@ != "5"@ && "1"@ != "6"@,
        "1"@ != "7"@ && "1"@ != "8"@ && "1"@ != "9"@ && "1"@ != "10"@,
        "2"@ != "3"@ && "2"@ != "4"@ && "2"@ != "5"@ && "2"@ != "6"@ && "2"@ != "7"@,
        "2"@ != "8"@ && "2"@ != "9"@ && "2"@ != "10"@,
        "3"@ != "4"@ && "3"@ != "5"@ && "3"@ != "6"@ && "3"@ != "7"@ && "3"@ != "8"@,
        "3"@ != "9"@ && "3"@ != "10"@,
        "4"@ != "5"@ && "4"@ != "6"@ && "4"@ != "7"@ && "4"@ != "8"@ && "4"@ != "9"@,
        "4"@ != "10"@,
        "5"@ != "6"@ && "5"@ != "7"@ && "5"@ != "8"@ && "5"@ != "9"@ && "5"@ != "10"@,
        "6"@ != "7"@ && "6"@ != "8"@ && "6"@ != "9"@ && "6"@ != "10"@,
        "7"@ != "8"@ && "7"@ != "9"@ && "7"@ != "10"@,
        "8"@ != "9"@ && "8"@ != "10"@,
        "9"@ != "10"@,
{
    reveal_strlit("1");
    reveal_strlit("2");
    reveal_strlit("3");
    reveal_strlit("4");
    reveal_strlit("5");
    reveal_strlit("6");
    reveal_strlit("7");
    reveal_strlit("8");
    reveal_strlit("9");
    reveal_strlit("10");
    assert("1"@[0] == '1' && "2"@[0] == '2' && "3"@[0] == '3' && "4"@[0] == '4' && "5"@[0] == '5');
    assert("6"@[0] == '6' && "7"@[0] == '7' && "8"@[0] == '8' && "9"@[0] == '9');
    assert("10"@.len() == 2 && "1"@.len() == 1);
}

/// The payload written for a value is read back as that value.
pub proof fn lemma_payload_roundtrip(v: ValueView)
    ensures
        decode_payload(tag_of(v), payload_of(v)) == Ok::<ValueView, DecodeError>(v),
{
    lemma_tags_differ();
    match v {
        ValueView::Attrs(names) => {
            let items = Seq::new(names.len(), |i: int| JsonDoc::Text(names[i]));
            assert(names_of(items) == Some(names)) by {
                assert forall|i: int| 0 <= i < items.len() implies #[trigger] items[i] is Text by {}
            }
        },
        _ => {},
    }
}

/// Every value survives being written and read: the document written for
/// a value decodes to that value. This holds for both kinds that share the
/// discriminator `"1"`, which are told apart by their payload.
pub proof fn lemma_decode_encode(v: ValueView)
    ensures
        decode_doc(encode_doc(v)) == Ok::<ValueView, DecodeError>(v),
{
    reveal_strlit("type");
    reveal_strlit("data");
    assert("type"@ != "data"@) by {
        assert("type"@[0] == 't' && "data"@[0] == 'd');
    }
    lemma_payload_roundtrip(v);
}

/// Members other than `type` and `data` make no difference to what an
/// object decodes to.
pub proof fn lemma_other_members_ignored(
    fields: Map<Seq<char>, JsonDoc>,
    key: Seq<char>,
    member: JsonDoc,
)
    requires
        key != "type"@,
        key != "data"@,
    ensures
        decode_doc(JsonDoc::Object(fields.insert(key, member))) == decode_doc(
            JsonDoc::Object(fields),
        ),
{
}

/// Whatever a document decodes to, writing that value again gives a
/// document that decodes to the same value.
pub proof fn lemma_reencode(doc: JsonDoc)
    ensures
        decode_doc(doc) matches Ok(v) ==> decode_doc(encode_doc(v)) == Ok::<ValueView, DecodeError>(
            v,
        ),
{
    match decode_doc(doc) {
        Ok(v) => {
            lemma_decode_encode(v);
        },
        Err(_) => {},
    }
}

} // verus!
