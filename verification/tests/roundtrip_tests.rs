use cymbal::decode::{decode_error_props, decode_props};
use cymbal::encode::encode_props;
use cymbal::json::{parse_json, render_json};

#[test]
fn unmodeled_keys_survive_a_round_trip() {
    let raw = r#"{
        "$exception_list": [{"type": "X", "value": "x"}],
        "$exception_level": "error",
        "custom_key": "custom_value",
        "numeric_key": 42,
        "nested_key": {"inner": [1, 2, 3]}
    }"#;
    let props = decode_error_props(raw).unwrap();
    assert_eq!(props.other.len(), 3);

    let encoded = encode_props(props);
    let text = render_json(&encoded);
    assert!(text.contains("\"custom_key\":\"custom_value\""));
    assert!(text.contains("\"numeric_key\":42"));
    assert!(text.contains("\"nested_key\":{\"inner\":[1,2,3]}"));

    let again = decode_props(parse_json(&text).unwrap()).unwrap();
    assert_eq!(again.other.len(), 3);
    assert_eq!(again.other[0].0, "custom_key".to_string());
    assert_eq!(again.other[1].0, "nested_key".to_string());
    assert_eq!(again.other[2].0, "numeric_key".to_string());
    assert_eq!(again.exception_level, Some("error".to_string()));
    assert_eq!(again.exception_list.unwrap().len(), 1);
}

#[test]
fn a_rendered_document_decodes_to_the_same_text_again() {
    let raw = r#"{
        "$exception_list": [{
            "type": "X",
            "value": "x",
            "mechanism": {"handled": true},
            "module": "m",
            "thread_id": -7,
            "stacktrace": {"type": "resolved", "frames": [
                {"mangled_name": "f", "source": "a.js", "line": 3, "column": 9,
                 "in_app": true, "resolved": true}
            ]}
        }],
        "$exception_type": "legacy",
        "other_key": [null, false]
    }"#;
    let first = render_json(&encode_props(decode_error_props(raw).unwrap()));
    let second = render_json(&encode_props(decode_error_props(&first).unwrap()));
    assert_eq!(first, second);
    assert!(first.contains("\"thread_id\":-7"));
    assert!(first.contains("\"$exception_type\":\"legacy\""));
    assert!(first.contains("\"$exception_level\":null"));
    assert!(first.contains("\"other_key\":[null,false]"));
}

#[test]
fn unset_mechanism_fields_are_omitted_on_output() {
    let raw = r#"{"$exception_list": [{"type": "X", "value": "x",
        "mechanism": {"handled": false, "synthetic": false}}]}"#;
    let text = render_json(&encode_props(decode_error_props(raw).unwrap()));
    assert!(text.contains("\"mechanism\":{\"handled\":false,\"synthetic\":false}"));
    assert!(!text.contains("\"source\""));
}
