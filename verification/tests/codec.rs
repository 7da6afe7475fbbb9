use nix_inspect::codec::{decode_line, decode_value, DecodeError};
use nix_inspect::value::NixValue;

fn names(items: &[&str]) -> Vec<String> {
    items.iter().map(|s| s.to_string()).collect()
}

#[test]
fn thunk_has_no_payload() {
    assert_eq!(decode_line("{\"type\":\"1\"}"), Ok(NixValue::Thunk));
    assert_eq!(decode_line("{\"type\":\"1\",\"data\":null}"), Ok(NixValue::Thunk));
}

#[test]
fn int_shares_the_discriminator_of_thunk() {
    assert_eq!(decode_line("{\"type\":\"1\",\"data\":42}"), Ok(NixValue::Int(42)));
    assert_eq!(decode_line("{\"type\":\"1\",\"data\":-7}"), Ok(NixValue::Int(-7)));
    assert_eq!(
        decode_line("{\"type\":\"1\",\"data\":9223372036854775807}"),
        Ok(NixValue::Int(i64::MAX))
    );
    assert_eq!(
        decode_line("{\"type\":\"1\",\"data\":-9223372036854775808}"),
        Ok(NixValue::Int(i64::MIN))
    );
}

#[test]
fn int_out_of_range_is_refused() {
    assert_eq!(
        decode_line("{\"type\":\"1\",\"data\":9223372036854775808}"),
        Err(DecodeError::BadPayload)
    );
    assert_eq!(decode_line("{\"type\":\"1\",\"data\":1.5}"), Err(DecodeError::BadPayload));
    assert_eq!(decode_line("{\"type\":\"1\",\"data\":\"1\"}"), Err(DecodeError::BadPayload));
}

#[test]
fn float_is_held_by_its_bits() {
    assert_eq!(
        decode_line("{\"type\":\"2\",\"data\":1.5}"),
        Ok(NixValue::Float(1.5f64.to_bits()))
    );
    assert_eq!(
        decode_line("{\"type\":\"2\",\"data\":-0.25}"),
        Ok(NixValue::Float((-0.25f64).to_bits()))
    );
    assert_eq!(decode_line("{\"type\":\"2\",\"data\":1.5}"), Ok(NixValue::Float(0x3FF8000000000000)));
}

#[test]
fn float_takes_an_integer_payload() {
    assert_eq!(decode_line("{\"type\":\"2\",\"data\":3}"), Ok(NixValue::Float(3.0f64.to_bits())));
    assert_eq!(
        decode_line("{\"type\":\"2\",\"data\":-2}"),
        Ok(NixValue::Float((-2.0f64).to_bits()))
    );
    assert_eq!(decode_line("{\"type\":\"2\"}"), Err(DecodeError::BadPayload));
    assert_eq!(decode_line("{\"type\":\"2\",\"data\":\"1.5\"}"), Err(DecodeError::BadPayload));
}

#[test]
fn bool_payload() {
    assert_eq!(decode_line("{\"type\":\"3\",\"data\":true}"), Ok(NixValue::Bool(true)));
    assert_eq!(decode_line("{\"type\":\"3\",\"data\":false}"), Ok(NixValue::Bool(false)));
    assert_eq!(decode_line("{\"type\":\"3\",\"data\":1}"), Err(DecodeError::BadPayload));
    assert_eq!(decode_line("{\"type\":\"3\"}"), Err(DecodeError::BadPayload));
}

#[test]
fn string_payload() {
    assert_eq!(
        decode_line("{\"type\":\"4\",\"data\":\"hello\"}"),
        Ok(NixValue::String("hello".to_string()))
    );
    assert_eq!(
        decode_line("{\"type\":\"4\",\"data\":\"a\\nb \\u00e9\"}"),
        Ok(NixValue::String("a\nb \u{e9}".to_string()))
    );
    assert_eq!(decode_line("{\"type\":\"4\",\"data\":5}"), Err(DecodeError::BadPayload));
    assert_eq!(decode_line("{\"type\":\"4\"}"), Err(DecodeError::BadPayload));
}

#[test]
fn path_payload() {
    assert_eq!(
        decode_line("{\"type\":\"5\",\"data\":\"/nix/store/x\"}"),
        Ok(NixValue::Path("/nix/store/x".to_string()))
    );
    assert_eq!(decode_line("{\"type\":\"5\",\"data\":null}"), Err(DecodeError::BadPayload));
}

#[test]
fn null_has_no_payload() {
    assert_eq!(decode_line("{\"type\":\"6\"}"), Ok(NixValue::Null));
    assert_eq!(decode_line("{\"type\":\"6\",\"data\":null}"), Ok(NixValue::Null));
    assert_eq!(decode_line("{\"type\":\"6\",\"data\":0}"), Err(DecodeError::BadPayload));
}

#[test]
fn attrs_payload_keeps_the_order_of_names() {
    assert_eq!(
        decode_line("{\"type\":\"7\",\"data\":[\"foo\",\"bar\"]}"),
        Ok(NixValue::Attrs(names(&["foo", "bar"])))
    );
    assert_eq!(
        decode_line("{\"type\":\"7\",\"data\":[\"b\",\"a\",\"b\"]}"),
        Ok(NixValue::Attrs(names(&["b", "a", "b"])))
    );
    assert_eq!(decode_line("{\"type\":\"7\",\"data\":[]}"), Ok(NixValue::Attrs(names(&[]))));
}

#[test]
fn attrs_payload_must_be_strings() {
    assert_eq!(
        decode_line("{\"type\":\"7\",\"data\":[\"foo\",1]}"),
        Err(DecodeError::BadPayload)
    );
    assert_eq!(decode_line("{\"type\":\"7\",\"data\":\"foo\"}"), Err(DecodeError::BadPayload));
    assert_eq!(decode_line("{\"type\":\"7\"}"), Err(DecodeError::BadPayload));
}

#[test]
fn list_payload_is_a_count() {
    assert_eq!(decode_line("{\"type\":\"8\",\"data\":3}"), Ok(NixValue::List(3)));
    assert_eq!(decode_line("{\"type\":\"8\",\"data\":0}"), Ok(NixValue::List(0)));
    assert_eq!(decode_line("{\"type\":\"8\",\"data\":-1}"), Err(DecodeError::BadPayload));
    assert_eq!(decode_line("{\"type\":\"8\",\"data\":2.0}"), Err(DecodeError::BadPayload));
    assert_eq!(decode_line("{\"type\":\"8\",\"data\":[1,2]}"), Err(DecodeError::BadPayload));
    assert_eq!(decode_line("{\"type\":\"8\"}"), Err(DecodeError::BadPayload));
}

#[test]
fn function_and_external_have_no_payload() {
    assert_eq!(decode_line("{\"type\":\"9\"}"), Ok(NixValue::Function));
    assert_eq!(decode_line("{\"type\":\"10\"}"), Ok(NixValue::External));
    assert_eq!(decode_line("{\"type\":\"10\",\"data\":null}"), Ok(NixValue::External));
    assert_eq!(decode_line("{\"type\":\"9\",\"data\":{}}"), Err(DecodeError::BadPayload));
    assert_eq!(decode_line("{\"type\":\"10\",\"data\":false}"), Err(DecodeError::BadPayload));
}

#[test]
fn line_end_and_spaces_are_accepted() {
    assert_eq!(
        decode_line("{\"type\":\"4\",\"data\":\"hello\"}\n"),
        Ok(NixValue::String("hello".to_string()))
    );
    assert_eq!(
        decode_line("  { \"data\" : true , \"type\" : \"3\" }\r\n"),
        Ok(NixValue::Bool(true))
    );
}

#[test]
fn other_members_are_not_looked_at() {
    assert_eq!(
        decode_line("{\"type\":\"8\",\"data\":2,\"note\":\"x\"}"),
        Ok(NixValue::List(2))
    );
}

#[test]
fn text_that_is_no_document() {
    assert_eq!(decode_line(""), Err(DecodeError::NotJson));
    assert_eq!(decode_line("\n"), Err(DecodeError::NotJson));
    assert_eq!(decode_line("{\"type\":\"1\""), Err(DecodeError::NotJson));
    assert_eq!(decode_line("{\"type\":\"1\"} {\"type\":\"6\"}"), Err(DecodeError::NotJson));
    assert_eq!(decode_line("error: attribute missing"), Err(DecodeError::NotJson));
}

#[test]
fn document_that_is_no_object() {
    assert_eq!(decode_line("[\"7\",[\"foo\"]]"), Err(DecodeError::NotAnObject));
    assert_eq!(decode_line("\"1\""), Err(DecodeError::NotAnObject));
    assert_eq!(decode_line("null"), Err(DecodeError::NotAnObject));
}

#[test]
fn object_without_discriminator() {
    assert_eq!(decode_line("{}"), Err(DecodeError::MissingTag));
    assert_eq!(decode_line("{\"data\":1}"), Err(DecodeError::MissingTag));
}

#[test]
fn discriminator_that_is_no_string() {
    assert_eq!(decode_line("{\"type\":1}"), Err(DecodeError::TagNotText));
    assert_eq!(decode_line("{\"type\":null,\"data\":1}"), Err(DecodeError::TagNotText));
}

#[test]
fn discriminator_not_in_use() {
    assert_eq!(decode_line("{\"type\":\"0\"}"), Err(DecodeError::UnknownTag));
    assert_eq!(decode_line("{\"type\":\"11\"}"), Err(DecodeError::UnknownTag));
    assert_eq!(decode_line("{\"type\":\"01\"}"), Err(DecodeError::UnknownTag));
    assert_eq!(decode_line("{\"type\":\"\"}"), Err(DecodeError::UnknownTag));
    assert_eq!(decode_line("{\"type\":\"int\",\"data\":1}"), Err(DecodeError::UnknownTag));
    assert_eq!(decode_line("{\"type\":\"100\"}"), Err(DecodeError::UnknownTag));
}

#[test]
fn parsed_document_is_decoded() {
    let mut fields = serde_json::Map::new();
    fields.insert("type".to_string(), serde_json::Value::from("7"));
    fields.insert(
        "data".to_string(),
        serde_json::Value::Array(vec![serde_json::Value::from("foo"), serde_json::Value::from("bar")]),
    );
    let doc = serde_json::Value::Object(fields);
    assert_eq!(decode_value(&doc), Ok(NixValue::Attrs(names(&["foo", "bar"]))));
    assert_eq!(decode_value(&serde_json::Value::Null), Err(DecodeError::NotAnObject));
}

fn written(tag: &str, payload: Option<serde_json::Value>) -> String {
    let mut fields = serde_json::Map::new();
    fields.insert("type".to_string(), serde_json::Value::from(tag));
    if let Some(p) = payload {
        fields.insert("data".to_string(), p);
    }
    serde_json::Value::Object(fields).to_string()
}

#[test]
fn every_kind_survives_writing_and_reading() {
    let cases: Vec<(NixValue, String)> = vec![
        (NixValue::Thunk, written("1", None)),
        (NixValue::Int(-5), written("1", Some(serde_json::Value::from(-5i64)))),
        (NixValue::Float(2.5f64.to_bits()), written("2", Some(serde_json::Value::from(2.5f64)))),
        (NixValue::Bool(true), written("3", Some(serde_json::Value::from(true)))),
        (NixValue::String("a \"b\"".to_string()), written("4", Some(serde_json::Value::from("a \"b\"")))),
        (NixValue::Path("/etc".to_string()), written("5", Some(serde_json::Value::from("/etc")))),
        (NixValue::Null, written("6", None)),
        (
            NixValue::Attrs(names(&["foo", "bar"])),
            written(
                "7",
                Some(serde_json::Value::Array(vec![
                    serde_json::Value::from("foo"),
                    serde_json::Value::from("bar"),
                ])),
            ),
        ),
        (NixValue::List(12), written("8", Some(serde_json::Value::from(12u64)))),
        (NixValue::Function, written("9", None)),
        (NixValue::External, written("10", None)),
    ];
    for (value, line) in cases {
        assert_eq!(decode_line(&line), Ok(value));
    }
}

#[test]
fn a_copy_of_a_value_is_equal_to_it() {
    let v = NixValue::Attrs(names(&["x", "y"]));
    assert_eq!(v.clone(), v);
    let s = NixValue::String("s".to_string());
    assert_eq!(s.clone(), s);
    assert_ne!(NixValue::Path("s".to_string()), s);
}
