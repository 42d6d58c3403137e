use std::collections::BTreeMap;

use convex::Value;
use mobile_convex::codec::{decode_value, encode_value, parse_json_args, push_decoded};
use mobile_convex::error::ClientError;

fn pairs(entries: &[(&str, &str)]) -> Vec<(String, String)> {
    entries.iter().map(|(k, v)| (k.to_string(), v.to_string())).collect()
}

#[test]
fn decodes_a_number_as_a_float() {
    assert_eq!(decode_value("1").unwrap(), Value::Float64(1.0));
}

#[test]
fn decodes_a_string() {
    assert_eq!(decode_value("\"x\"").unwrap(), Value::String("x".to_string()));
}

#[test]
fn decodes_null_bool_array_and_object() {
    assert_eq!(decode_value("null").unwrap(), Value::Null);
    assert_eq!(decode_value("true").unwrap(), Value::Boolean(true));
    assert_eq!(
        decode_value("[1, \"a\"]").unwrap(),
        Value::Array(vec![Value::Float64(1.0), Value::String("a".to_string())])
    );
    let mut fields = BTreeMap::new();
    fields.insert("code".to_string(), Value::String("X".to_string()));
    assert_eq!(decode_value("{\"code\":\"X\"}").unwrap(), Value::Object(fields));
}

#[test]
fn decodes_a_tagged_integer() {
    assert_eq!(
        decode_value("{\"$integer\":\"AQAAAAAAAAA=\"}").unwrap(),
        Value::Int64(1)
    );
}

#[test]
fn invalid_json_is_an_internal_error_with_the_readers_text() {
    assert_eq!(
        decode_value("{").unwrap_err(),
        ClientError::InternalError {
            msg: "EOF while parsing an object at line 1 column 1".to_string()
        }
    );
}

#[test]
fn empty_text_is_an_internal_error() {
    assert_eq!(
        decode_value("").unwrap_err(),
        ClientError::InternalError {
            msg: "EOF while parsing a value at line 1 column 0".to_string()
        }
    );
}

#[test]
fn json_that_is_no_backend_value_is_an_internal_error_with_the_mappings_text() {
    assert_eq!(
        decode_value("{\"$set\":[]}").unwrap_err(),
        ClientError::InternalError {
            msg: "Received a Set which is no longer supported as a Convex type, with values: []"
                .to_string()
        }
    );
}

#[test]
fn encodes_an_integer_with_its_tag() {
    assert_eq!(
        encode_value(Value::Int64(1)).unwrap(),
        "{\"$integer\":\"AQAAAAAAAAA=\"}"
    );
}

#[test]
fn encodes_plain_values() {
    assert_eq!(encode_value(Value::Null).unwrap(), "null");
    assert_eq!(encode_value(Value::Boolean(false)).unwrap(), "false");
    assert_eq!(encode_value(Value::Float64(1.5)).unwrap(), "1.5");
    assert_eq!(encode_value(Value::String("x".to_string())).unwrap(), "\"x\"");
    assert_eq!(
        encode_value(Value::Array(vec![Value::Null, Value::Boolean(true)])).unwrap(),
        "[null,true]"
    );
}

#[test]
fn encodes_an_object_with_keys_in_order() {
    let mut fields = BTreeMap::new();
    fields.insert("b".to_string(), Value::String("y".to_string()));
    fields.insert("a".to_string(), Value::Float64(2.0));
    assert_eq!(
        encode_value(Value::Object(fields)).unwrap(),
        "{\"a\":2.0,\"b\":\"y\"}"
    );
}

#[test]
fn encoding_undoes_decoding() {
    let text = "{\"code\":\"X\",\"n\":[1.0,null]}";
    assert_eq!(encode_value(decode_value(text).unwrap()).unwrap(), text);
}

#[test]
fn argument_mapping_decodes_entry_by_entry() {
    let args = parse_json_args(&pairs(&[("a", "1"), ("b", "\"x\"")])).unwrap();
    assert_eq!(
        args,
        vec![
            ("a".to_string(), Value::Float64(1.0)),
            ("b".to_string(), Value::String("x".to_string())),
        ]
    );
}

#[test]
fn empty_argument_mapping_decodes_to_nothing() {
    assert_eq!(parse_json_args(&Vec::new()).unwrap(), Vec::new());
}

#[test]
fn argument_mapping_with_invalid_json_fails_closed() {
    assert_eq!(
        parse_json_args(&pairs(&[("a", "{")])).unwrap_err(),
        ClientError::InternalError {
            msg: "EOF while parsing an object at line 1 column 1".to_string()
        }
    );
}

#[test]
fn one_bad_argument_spoils_the_whole_mapping() {
    assert!(parse_json_args(&pairs(&[("a", "1"), ("b", "tru"), ("c", "2")])).is_err());
}

#[test]
fn the_first_bad_argument_gives_the_error() {
    assert_eq!(
        parse_json_args(&pairs(&[("a", "1"), ("b", "{\"$map\":[]}"), ("c", "{")])).unwrap_err(),
        ClientError::InternalError {
            msg: "Received a Map which is no longer supported as a Convex type, with values: []"
                .to_string()
        }
    );
}

#[test]
fn decoding_keeps_keys_and_their_order() {
    let raw = pairs(&[("z", "1"), ("a", "2"), ("m", "3")]);
    let args = parse_json_args(&raw).unwrap();
    let keys: Vec<&str> = args.iter().map(|(k, _)| k.as_str()).collect();
    assert_eq!(keys, vec!["z", "a", "m"]);
}

#[test]
fn a_decoded_argument_joins_the_list() {
    let mut args = vec![("a".to_string(), Value::Null)];
    assert_eq!(push_decoded(&mut args, "b".to_string(), Ok(Value::Boolean(true))), Ok(()));
    assert_eq!(
        args,
        vec![("a".to_string(), Value::Null), ("b".to_string(), Value::Boolean(true))]
    );
}

#[test]
fn a_failed_argument_leaves_the_list_alone() {
    let mut args = vec![("a".to_string(), Value::Null)];
    let failure = ClientError::InternalError { msg: "bad".to_string() };
    assert_eq!(push_decoded(&mut args, "b".to_string(), Err(failure.clone())), Err(failure));
    assert_eq!(args, vec![("a".to_string(), Value::Null)]);
}
