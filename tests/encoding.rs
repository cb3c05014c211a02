use pattern_monitor::codec::{deserialise_vector, serialise_vector};
use pattern_monitor::fields::{encode_json_fields, EncodeError};
use pattern_monitor::vector::{build_master_bundle, Hypervector};

#[test]
fn test_encode_fields_parses_json_object() {
    let body = br#"{"event":"quake","magnitude":"6.2"}"#;
    let result = encode_json_fields(body);
    assert!(result.is_ok(), "expected Ok, got: {:?}", result.as_ref().err());
    let encoded = result.unwrap();
    assert_eq!(encoded.vectors.len(), 2, "expected 2 field vectors");
    assert_eq!(encoded.names.len(), 2, "expected 2 field names");
}

#[test]
fn test_encode_fields_rejects_json_array() {
    let result = encode_json_fields(b"[1, 2, 3]");
    assert!(result.is_err());
    assert!(
        result.err().unwrap().message().contains("not a JSON object"),
        "error should mention 'not a JSON object'"
    );
}

#[test]
fn test_encode_fields_rejects_invalid_json() {
    let result = encode_json_fields(b"not json");
    assert!(result.is_err());
    assert!(
        result.err().unwrap().message().contains("JSON parse error"),
        "error should mention 'JSON parse error'"
    );
}

#[test]
fn test_encode_fields_rejects_json_string() {
    let result = encode_json_fields(br#""just a string""#);
    assert!(result.is_err());
}

#[test]
fn test_build_master_bundle_single_field() {
    let encoded = encode_json_fields(br#"{"only":"field"}"#).unwrap();
    let bundle = build_master_bundle(&encoded.vectors);
    assert!(bundle.is_some(), "bundle should exist for a single-field object");
}

#[test]
fn test_build_master_bundle_multiple_fields() {
    let encoded = encode_json_fields(br#"{"a":"1","b":"2","c":"3"}"#).unwrap();
    let bundle = build_master_bundle(&encoded.vectors);
    assert!(bundle.is_some(), "bundle should exist for a multi-field object");
}

#[test]
fn test_build_master_bundle_empty_map() {
    let empty: Vec<Hypervector> = Vec::new();
    let bundle = build_master_bundle(&empty);
    assert!(bundle.is_none(), "empty map should yield no bundle");
}

#[test]
fn test_serialise_vector_roundtrip() {
    let encoded = encode_json_fields(br#"{"sensor":"temperature","value":"42.5"}"#).unwrap();
    let original = &encoded.vectors[0];
    let bytes = serialise_vector(original).unwrap();
    assert!(!bytes.is_empty(), "serialised bytes must not be empty");
    let restored =
        deserialise_vector(&bytes).expect("deserialisation should succeed on serialised bytes");
    let bytes2 = serialise_vector(&restored).expect("re-serialisation should succeed");
    assert_eq!(
        bytes, bytes2,
        "re-serialising a deserialised vector must produce identical bytes"
    );
}

#[test]
fn test_same_input_produces_same_vector() {
    let body = br#"{"key":"value"}"#;
    let enc1 = encode_json_fields(body).unwrap();
    let enc2 = encode_json_fields(body).unwrap();
    let bytes1 = serialise_vector(&enc1.vectors[0]).unwrap();
    let bytes2 = serialise_vector(&enc2.vectors[0]).unwrap();
    assert_eq!(bytes1, bytes2, "same JSON input must produce identical vector bytes");
}

#[test]
fn field_names_follow_object_order() {
    let encoded = encode_json_fields(br#"{"event":"quake","magnitude":"6.2"}"#).unwrap();
    assert_eq!(encoded.names, vec!["event".to_string(), "magnitude".to_string()]);
}

#[test]
fn encoding_is_repeatable_for_every_field() {
    let body = br#"{"a":"1","b":[1,2],"c":{"d":null}}"#;
    let first = encode_json_fields(body).unwrap();
    let second = encode_json_fields(body).unwrap();
    assert_eq!(first.vectors, second.vectors);
    assert_eq!(first.names, second.names);
}

#[test]
fn empty_object_encodes_no_fields() {
    let encoded = encode_json_fields(b"{}").unwrap();
    assert!(encoded.vectors.is_empty());
    assert!(encoded.names.is_empty());
    assert!(build_master_bundle(&encoded.vectors).is_none());
}

#[test]
fn every_top_level_non_object_is_a_shape_error() {
    for body in [&b"[1,2,3]"[..], b"\"text\"", b"42", b"true", b"false", b"null"] {
        match encode_json_fields(body) {
            Err(EncodeError::Shape) => {}
            Err(e) => panic!("expected a shape error, got {:?}", e),
            Ok(_) => panic!("expected a shape error, got fields"),
        }
    }
}

#[test]
fn invalid_json_is_a_parse_error() {
    for body in [&b"not json"[..], b"{\"a\":", b"", b"{\"a\" 1}"] {
        match encode_json_fields(body) {
            Err(EncodeError::Parse(_)) => {}
            Err(e) => panic!("expected a parse error, got {:?}", e),
            Ok(_) => panic!("expected a parse error, got fields"),
        }
    }
}

#[test]
fn shape_error_message_is_exact() {
    assert_eq!(EncodeError::Shape.message(), "message body is not a JSON object");
    assert_eq!(
        EncodeError::Parse("eof".to_string()).message(),
        "JSON parse error: eof"
    );
}

#[test]
fn value_text_is_its_json_form() {
    // Key "1" sets dimension 49; the number text "1" sets 49 too, the quoted
    // text "\"1\"" sets 34, 50 and 36, so only the number overlaps the key.
    let number = encode_json_fields(br#"{"1":1}"#).unwrap();
    let quoted = encode_json_fields(br#"{"1":"1"}"#).unwrap();
    let spaced = encode_json_fields(br#"{ "1" : 1 }"#).unwrap();
    assert_eq!(number.vectors[0], Hypervector { pos: vec![49], neg: vec![] });
    assert_eq!(quoted.vectors[0], Hypervector { pos: vec![], neg: vec![] });
    assert_eq!(spaced.vectors[0], number.vectors[0]);
}

#[test]
fn field_vector_binds_key_to_value() {
    // Key "a" sets dimension 97; the text "\"`\"" sets 34, 97 and 36.
    let overlapping = encode_json_fields(br#"{"a":"`"}"#).unwrap();
    assert_eq!(overlapping.vectors[0], Hypervector { pos: vec![97], neg: vec![] });
    // The text "\"x\"" sets 34, 121 and 36: nothing in common with the key.
    let disjoint = encode_json_fields(br#"{"a":"x"}"#).unwrap();
    assert_eq!(disjoint.vectors[0], Hypervector { pos: vec![], neg: vec![] });
}

#[test]
fn bundle_of_one_field_is_that_field() {
    let encoded = encode_json_fields(br#"{"only":"field"}"#).unwrap();
    let bundle = build_master_bundle(&encoded.vectors).unwrap();
    assert_eq!(bundle, encoded.vectors[0]);
}

#[test]
fn bundle_of_two_fields_superposes_them() {
    let encoded = encode_json_fields(br#"{"1":1,"a":"`"}"#).unwrap();
    assert_eq!(encoded.names, vec!["1".to_string(), "a".to_string()]);
    let bundle = build_master_bundle(&encoded.vectors).unwrap();
    assert_eq!(bundle, Hypervector { pos: vec![49, 97], neg: vec![] });
}

#[test]
fn serialised_bytes_hold_both_index_lists() {
    let v = Hypervector { pos: vec![3, 7], neg: vec![1] };
    let bytes = serialise_vector(&v).unwrap();
    assert_eq!(bytes.len(), 8 + 2 * 8 + 8 + 8);
    assert_eq!(deserialise_vector(&bytes).unwrap(), v);
}

#[test]
fn deserialising_short_bytes_fails() {
    assert!(deserialise_vector(&[1, 0, 0]).is_err());
}

#[test]
fn repeated_key_gives_one_field() {
    let encoded = encode_json_fields(br#"{"a":"x","a":"`"}"#).unwrap();
    assert_eq!(encoded.names, vec!["a".to_string()]);
    assert_eq!(encoded.vectors, vec![Hypervector { pos: vec![97], neg: vec![] }]);
}
