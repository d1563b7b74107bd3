use pretty_simple_display::render::{
    debug_pretty, debug_simple, display_pretty, display_simple, format_outcome, render,
    render_binding, Binding, JsonMode,
};
use pretty_simple_display::value::{well_formed, JsonValue};

fn record() -> JsonValue {
    JsonValue::Obj(vec![
        ("id".to_string(), JsonValue::Int(42)),
        ("name".to_string(), JsonValue::Str("test".to_string())),
        ("active".to_string(), JsonValue::Bool(true)),
    ])
}

#[test]
fn debug_pretty_exact_text() {
    let expected = "{\n  \"id\": 42,\n  \"name\": \"test\",\n  \"active\": true\n}";
    assert_eq!(debug_pretty(&record()), expected);
}

#[test]
fn display_simple_exact_text() {
    assert_eq!(
        display_simple(&record()),
        "{\"id\":42,\"name\":\"test\",\"active\":true}"
    );
}

#[test]
fn nested_pretty_exact_text() {
    let v = JsonValue::Obj(vec![(
        "values".to_string(),
        JsonValue::Arr(vec![JsonValue::Int(1), JsonValue::Int(2)]),
    )]);
    let expected = "{\n  \"values\": [\n    1,\n    2\n  ]\n}";
    assert_eq!(display_pretty(&v), expected);
}

#[test]
fn pretty_and_simple_parse_to_equal_values() {
    let v = JsonValue::Obj(vec![
        (
            "inner".to_string(),
            JsonValue::Obj(vec![(
                "data".to_string(),
                JsonValue::Str("a \"quoted\"\tpiece\n".to_string()),
            )]),
        ),
        (
            "values".to_string(),
            JsonValue::Arr(vec![JsonValue::Int(-5), JsonValue::Null, JsonValue::Bool(false)]),
        ),
    ]);
    let pretty = render(&v, JsonMode::Pretty);
    let simple = render(&v, JsonMode::Simple);
    let from_pretty: serde_json::Value = serde_json::from_str(&pretty).unwrap();
    let from_simple: serde_json::Value = serde_json::from_str(&simple).unwrap();
    assert_eq!(from_pretty, from_simple);
}

#[test]
fn empty_containers_text() {
    assert_eq!(display_simple(&JsonValue::Obj(vec![])), "{}");
    assert_eq!(debug_pretty(&JsonValue::Obj(vec![])), "{}");
    assert_eq!(display_simple(&JsonValue::Arr(vec![])), "[]");
    assert_eq!(debug_pretty(&JsonValue::Arr(vec![])), "[]");
}

#[test]
fn leaf_values_text() {
    assert_eq!(display_simple(&JsonValue::Null), "null");
    assert_eq!(display_simple(&JsonValue::Bool(true)), "true");
    assert_eq!(display_simple(&JsonValue::Bool(false)), "false");
    assert_eq!(display_simple(&JsonValue::Int(0)), "0");
    assert_eq!(display_simple(&JsonValue::Int(-17)), "-17");
    assert_eq!(debug_pretty(&JsonValue::Int(1234567)), "1234567");
}

#[test]
fn integer_extremes_text() {
    assert_eq!(
        display_simple(&JsonValue::Int(i64::MIN)),
        "-9223372036854775808"
    );
    assert_eq!(
        display_simple(&JsonValue::Int(i64::MAX)),
        "9223372036854775807"
    );
}

#[test]
fn deep_nesting_pretty_exact_text() {
    let v = JsonValue::Obj(vec![(
        "a".to_string(),
        JsonValue::Obj(vec![(
            "b".to_string(),
            JsonValue::Arr(vec![JsonValue::Str("c".to_string())]),
        )]),
    )]);
    let expected = "{\n  \"a\": {\n    \"b\": [\n      \"c\"\n    ]\n  }\n}";
    assert_eq!(debug_pretty(&v), expected);
}

#[test]
fn empty_object_inside_object_pretty() {
    let v = JsonValue::Obj(vec![("a".to_string(), JsonValue::Obj(vec![]))]);
    assert_eq!(debug_pretty(&v), "{\n  \"a\": {}\n}");
    assert_eq!(display_simple(&v), "{\"a\":{}}");
}

#[test]
fn bare_tag_is_quoted_string_in_both_modes() {
    let tag = JsonValue::Str("Pending".to_string());
    assert_eq!(display_simple(&tag), "\"Pending\"");
    assert_eq!(display_pretty(&tag), "\"Pending\"");
}

#[test]
fn control_characters_escaped() {
    assert_eq!(
        display_simple(&JsonValue::Str("\u{1}".to_string())),
        "\"\\u0001\""
    );
    assert_eq!(
        display_simple(&JsonValue::Str("a\rb\u{8}c\u{c}d".to_string())),
        "\"a\\rb\\bc\\fd\""
    );
    assert_eq!(
        display_simple(&JsonValue::Str("back\\slash".to_string())),
        "\"back\\\\slash\""
    );
}

#[test]
fn specials_escaped_in_pretty_mode() {
    let v = JsonValue::Obj(vec![(
        "text".to_string(),
        JsonValue::Str("a \"b\"\nc\td".to_string()),
    )]);
    let out = debug_pretty(&v);
    assert!(out.contains("\\\""));
    assert!(out.contains("\\n"));
    assert!(out.contains("\\t"));
}

#[test]
fn non_ascii_text_passes_through() {
    assert_eq!(
        display_simple(&JsonValue::Str("h\u{e9}llo".to_string())),
        "\"h\u{e9}llo\""
    );
}

#[test]
fn repeated_calls_are_consistent() {
    let v = record();
    let d1 = debug_pretty(&v);
    let d2 = debug_pretty(&v);
    let s1 = display_simple(&v);
    let s2 = display_simple(&v);
    assert_eq!(d1, d2);
    assert_eq!(s1, s2);
    assert!(d1.contains("\n"));
    assert!(!s1.contains("\n"));
}

#[test]
fn conventions_of_one_mode_agree() {
    let v = record();
    assert_eq!(debug_pretty(&v), display_pretty(&v));
    assert_eq!(debug_simple(&v), display_simple(&v));
}

#[test]
fn optional_field_compact_text() {
    let v = JsonValue::Obj(vec![
        (
            "some_value".to_string(),
            JsonValue::Str("present".to_string()),
        ),
        ("none_value".to_string(), JsonValue::Null),
    ]);
    let out = display_simple(&v);
    assert_eq!(out, "{\"some_value\":\"present\",\"none_value\":null}");
    assert!(out.contains("\"none_value\":null"));
}

#[test]
fn binding_mode_table() {
    let v = record();
    let pretty = "{\n  \"id\": 42,\n  \"name\": \"test\",\n  \"active\": true\n}";
    let simple = "{\"id\":42,\"name\":\"test\",\"active\":true}";
    assert_eq!(render_binding(&v, Binding::DebugPretty), pretty);
    assert_eq!(render_binding(&v, Binding::DisplayPretty), pretty);
    assert_eq!(render_binding(&v, Binding::DebugSimple), simple);
    assert_eq!(render_binding(&v, Binding::DisplaySimple), simple);
    assert_eq!(debug_simple(&v), simple);
}

#[test]
fn failure_outcome_formats_as_error_text() {
    let out = format_outcome(Err("boom".to_string()));
    assert_eq!(out, "Error serializing to JSON: boom");
}

#[test]
fn success_outcome_passes_text_verbatim() {
    let out = format_outcome(Ok("{\"a\":1}".to_string()));
    assert_eq!(out, "{\"a\":1}");
}

#[test]
fn well_formed_accepts_distinct_keys() {
    assert!(well_formed(&record()));
    assert!(well_formed(&JsonValue::Null));
}

#[test]
fn well_formed_rejects_duplicate_key() {
    let v = JsonValue::Obj(vec![
        ("id".to_string(), JsonValue::Int(1)),
        ("id".to_string(), JsonValue::Int(2)),
    ]);
    assert!(!well_formed(&v));

    let nested = JsonValue::Arr(vec![v]);
    assert!(!well_formed(&nested));
}
