use cymbal::{DecodeErr, JsonVal, RawFrame, Stacktrace};
use cymbal::decode::decode_error_props;

#[test]
fn it_deserialises_error_props() {
    let raw = r#"{
        "$exception_list": [{
            "type": "UnhandledRejection",
            "value": "Unexpected usage",
            "mechanism": {"handled": false, "synthetic": false},
            "stacktrace": {
                "type": "raw",
                "frames": [
                    {
                        "fn_name": "?",
                        "source_url": "https://app-static.eu.posthog.com/static/chunk-PGUQKT6S.js",
                        "in_app": true,
                        "line": 64,
                        "column": 25112
                    },
                    {
                        "fn_name": "n.loadForeignModule",
                        "source_url": "https://app-static.eu.posthog.com/static/chunk-PGUQKT6S.js",
                        "in_app": true,
                        "line": 64,
                        "column": 15003
                    }
                ]
            }
        }],
        "$exception_level": "error",
        "distinct_id": "whoever",
        "$browser": "Chrome"
    }"#;

    let props = decode_error_props(raw).unwrap();
    let exception_list = &props.exception_list.unwrap();

    assert_eq!(exception_list.len(), 1);
    assert_eq!(
        exception_list[0].exception_type,
        "UnhandledRejection".to_string()
    );
    assert_eq!(
        exception_list[0].exception_message,
        "Unexpected usage".to_string()
    );
    let mechanism = exception_list[0].mechanism.as_ref().unwrap();
    assert_eq!(mechanism.handled, Some(false));
    assert_eq!(mechanism.mechanism_type, None);
    assert_eq!(mechanism.source, None);
    assert_eq!(mechanism.synthetic, Some(false));

    let Stacktrace::Raw { frames } = exception_list[0].stack.as_ref().unwrap() else {
        panic!("Expected a Raw stacktrace")
    };
    assert_eq!(frames.len(), 2);
    let RawFrame::JavaScript(frame) = &frames[0];

    assert_eq!(
        frame.source_url,
        Some("https://app-static.eu.posthog.com/static/chunk-PGUQKT6S.js".to_string())
    );
    assert_eq!(frame.fn_name, "?".to_string());
    assert!(frame.in_app);
    assert_eq!(frame.line, 64);
    assert_eq!(frame.column, 25112);

    let RawFrame::JavaScript(frame) = &frames[1];
    assert_eq!(
        frame.source_url,
        Some("https://app-static.eu.posthog.com/static/chunk-PGUQKT6S.js".to_string())
    );
    assert_eq!(frame.fn_name, "n.loadForeignModule".to_string());
    assert!(frame.in_app);
    assert_eq!(frame.line, 64);
    assert_eq!(frame.column, 15003);

    assert_eq!(props.exception_type, None);
    assert_eq!(props.exception_message, None);
    assert_eq!(props.exception_stack_trace_raw, None);
    assert_eq!(props.exception_level, Some("error".to_string()));
    assert_eq!(props.other.len(), 2);
}

#[test]
fn it_rejects_invalid_error_props() {
    let raw = r#"{
            "$exception_list": []
        }"#;

    let props = decode_error_props(raw);
    assert!(props.is_ok());
    assert_eq!(props.unwrap().exception_list.unwrap().len(), 0);

    let raw = r#"{
            "$exception_list": [{
                "type": "UnhandledRejection"
            }]
        }"#;

    let props = decode_error_props(raw);
    assert!(props.is_err());
    assert_eq!(props.unwrap_err(), DecodeErr::MissingExceptionMessage);

    let raw = r#"{
            "$exception_list": [{
                "typo": "UnhandledRejection",
                "value": "x"
            }]
        }"#;

    let props = decode_error_props(raw);
    assert!(props.is_err());
    assert_eq!(props.unwrap_err(), DecodeErr::MissingExceptionType);
}

#[test]
fn invalid_json_fails_closed() {
    assert_eq!(
        decode_error_props("not json at all").unwrap_err(),
        DecodeErr::InvalidJson
    );
}

#[test]
fn a_non_object_document_is_rejected() {
    assert_eq!(
        decode_error_props("[1, 2, 3]").unwrap_err(),
        DecodeErr::NotAnObject
    );
}

#[test]
fn a_non_array_exception_list_is_rejected() {
    assert_eq!(
        decode_error_props(r#"{"$exception_list": 5}"#).unwrap_err(),
        DecodeErr::BadExceptionList
    );
}

#[test]
fn an_empty_type_is_rejected() {
    let raw = r#"{"$exception_list": [{"type": "", "value": "x"}]}"#;
    assert_eq!(
        decode_error_props(raw).unwrap_err(),
        DecodeErr::EmptyExceptionType
    );
}

#[test]
fn an_empty_message_is_rejected() {
    let raw = r#"{"$exception_list": [{"type": "X", "value": ""}]}"#;
    assert_eq!(
        decode_error_props(raw).unwrap_err(),
        DecodeErr::EmptyExceptionMessage
    );
}

#[test]
fn a_non_string_legacy_field_is_rejected() {
    let raw = r#"{"$exception_type": 7}"#;
    assert_eq!(
        decode_error_props(raw).unwrap_err(),
        DecodeErr::BadStringField
    );
}

#[test]
fn a_non_bool_mechanism_flag_is_rejected() {
    let raw = r#"{"$exception_list": [{"type": "X", "value": "x",
        "mechanism": {"handled": "yes"}}]}"#;
    assert_eq!(
        decode_error_props(raw).unwrap_err(),
        DecodeErr::BadBoolField
    );
}

#[test]
fn a_fractional_thread_id_is_rejected() {
    let raw = r#"{"$exception_list": [{"type": "X", "value": "x", "thread_id": 1.5}]}"#;
    assert_eq!(decode_error_props(raw).unwrap_err(), DecodeErr::BadThreadId);
}

#[test]
fn an_overflowing_thread_id_is_rejected() {
    let raw = r#"{"$exception_list": [{"type": "X", "value": "x", "thread_id": 2147483648}]}"#;
    assert_eq!(decode_error_props(raw).unwrap_err(), DecodeErr::BadThreadId);
}

#[test]
fn thread_id_bounds_are_exact() {
    let raw = r#"{"$exception_list": [{"type": "X", "value": "x", "thread_id": 2147483647}]}"#;
    let props = decode_error_props(raw).unwrap();
    assert_eq!(props.exception_list.unwrap()[0].thread_id, Some(2147483647));

    let raw = r#"{"$exception_list": [{"type": "X", "value": "x", "thread_id": -2147483648}]}"#;
    let props = decode_error_props(raw).unwrap();
    assert_eq!(
        props.exception_list.unwrap()[0].thread_id,
        Some(-2147483648)
    );
}

#[test]
fn an_unknown_stacktrace_tag_is_rejected() {
    let raw = r#"{"$exception_list": [{"type": "X", "value": "x",
        "stacktrace": {"type": "half", "frames": []}}]}"#;
    assert_eq!(
        decode_error_props(raw).unwrap_err(),
        DecodeErr::BadStacktraceTag
    );
}

#[test]
fn missing_frames_are_rejected() {
    let raw = r#"{"$exception_list": [{"type": "X", "value": "x",
        "stacktrace": {"type": "raw"}}]}"#;
    assert_eq!(decode_error_props(raw).unwrap_err(), DecodeErr::BadFrames);
}

#[test]
fn a_malformed_frame_is_rejected() {
    let raw = r#"{"$exception_list": [{"type": "X", "value": "x",
        "stacktrace": {"type": "raw", "frames": [{"fn_name": "f", "in_app": true,
        "line": 4294967296, "column": 0}]}}]}"#;
    assert_eq!(decode_error_props(raw).unwrap_err(), DecodeErr::BadFrame);
}

#[test]
fn a_resolved_stack_decodes() {
    let raw = r#"{"$exception_list": [{"type": "X", "value": "x",
        "stacktrace": {"type": "resolved", "frames": [
            {"mangled_name": "f", "source": "app.js", "line": 4294967295,
             "in_app": true, "resolved": true}
        ]}}]}"#;
    let props = decode_error_props(raw).unwrap();
    let list = props.exception_list.unwrap();
    let Some(Stacktrace::Resolved { frames }) = &list[0].stack else {
        panic!("Expected a Resolved stacktrace")
    };
    assert_eq!(frames.len(), 1);
    assert_eq!(frames[0].mangled_name, "f".to_string());
    assert_eq!(frames[0].source, Some("app.js".to_string()));
    assert_eq!(frames[0].line, Some(4294967295));
    assert_eq!(frames[0].column, None);
    assert!(frames[0].in_app);
    assert!(frames[0].resolved);
}

#[test]
fn one_bad_exception_fails_the_whole_list() {
    let raw = r#"{"$exception_list": [
        {"type": "A", "value": "a"},
        {"type": "B"}
    ]}"#;
    assert_eq!(
        decode_error_props(raw).unwrap_err(),
        DecodeErr::MissingExceptionMessage
    );
}

#[test]
fn unknown_keys_land_in_other_in_order() {
    // The parser hands object entries over in its map's key order.
    let raw = r#"{"zeta": 1, "$exception_level": "warn", "alpha": {"nested": true}}"#;
    let props = decode_error_props(raw).unwrap();
    assert_eq!(props.exception_level, Some("warn".to_string()));
    assert_eq!(props.other.len(), 2);
    assert_eq!(props.other[0].0, "alpha".to_string());
    assert!(matches!(props.other[0].1, JsonVal::Obj(_)));
    assert_eq!(props.other[1].0, "zeta".to_string());
    assert!(matches!(props.other[1].1, JsonVal::Num(_)));
}
