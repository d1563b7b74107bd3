use pretty_simple_display::render::{debug_pretty, debug_simple, display_pretty, display_simple};
use pretty_simple_display::value::JsonValue;

fn basic_struct() -> JsonValue {
    JsonValue::Obj(vec![
        ("id".to_string(), JsonValue::Int(42)),
        ("name".to_string(), JsonValue::Str("test".to_string())),
        ("active".to_string(), JsonValue::Bool(true)),
    ])
}

#[test]
fn test_debug_pretty_basic_struct() {
    let test_struct = basic_struct();

    let debug_output = debug_pretty(&test_struct);

    // Should contain pretty-printed JSON
    assert!(debug_output.contains("{\n"));
    assert!(debug_output.contains("  \"id\": 42"));
    assert!(debug_output.contains("  \"name\": \"test\""));
    assert!(debug_output.contains("  \"active\": true"));
}

#[test]
fn test_display_pretty_basic_struct() {
    let test_struct = basic_struct();

    let display_output = display_pretty(&test_struct);

    // Should contain pretty-printed JSON
    assert!(display_output.contains("{\n"));
    assert!(display_output.contains("  \"id\": 42"));
    assert!(display_output.contains("  \"name\": \"test\""));
    assert!(display_output.contains("  \"active\": true"));
}

#[test]
fn test_debug_simple_basic_struct() {
    let test_struct = basic_struct();

    let debug_output = debug_simple(&test_struct);

    // Should contain compact JSON (no newlines or extra spaces)
    assert!(!debug_output.contains("\n"));
    assert!(debug_output.contains("{\"id\":42"));
    assert!(debug_output.contains("\"name\":\"test\""));
    assert!(debug_output.contains("\"active\":true}"));
}

#[test]
fn test_display_simple_basic_struct() {
    let test_struct = basic_struct();

    let display_output = display_simple(&test_struct);

    // Should contain compact JSON (no newlines or extra spaces)
    assert!(!display_output.contains("\n"));
    assert!(display_output.contains("{\"id\":42"));
    assert!(display_output.contains("\"name\":\"test\""));
    assert!(display_output.contains("\"active\":true}"));
}

fn enum_variant2() -> JsonValue {
    JsonValue::Obj(vec![(
        "Variant2".to_string(),
        JsonValue::Obj(vec![(
            "value".to_string(),
            JsonValue::Str("hello".to_string()),
        )]),
    )])
}

#[test]
fn test_enum_debug_pretty() {
    let enum_variant1 = JsonValue::Str("Variant1".to_string());

    let output1 = debug_pretty(&enum_variant1);
    let output2 = debug_pretty(&enum_variant2());

    // Simple variant should be just the string
    assert_eq!(output1, "\"Variant1\"");

    // Struct variant should be pretty-printed
    assert!(output2.contains("{\n"));
    assert!(output2.contains("\"Variant2\""));
}

#[test]
fn test_enum_display_pretty() {
    let output = display_pretty(&enum_variant2());

    // Should be pretty-printed JSON
    assert!(output.contains("{\n"));
    assert!(output.contains("\"Variant2\""));
    assert!(output.contains("\"value\": \"hello\""));
}

fn nested_struct() -> JsonValue {
    JsonValue::Obj(vec![
        (
            "inner".to_string(),
            JsonValue::Obj(vec![(
                "data".to_string(),
                JsonValue::Str("nested_data".to_string()),
            )]),
        ),
        (
            "values".to_string(),
            JsonValue::Arr(vec![
                JsonValue::Int(1),
                JsonValue::Int(2),
                JsonValue::Int(3),
            ]),
        ),
    ])
}

#[test]
fn test_nested_struct_debug_simple() {
    let debug_output = debug_simple(&nested_struct());

    // Should be compact JSON
    assert!(!debug_output.contains("\n"));
    assert!(debug_output.contains("\"inner\":{\"data\":\"nested_data\"}"));
    assert!(debug_output.contains("\"values\":[1,2,3]"));
}

#[test]
fn test_nested_struct_display_simple() {
    let display_output = display_simple(&nested_struct());

    // Should be compact JSON
    assert!(!display_output.contains("\n"));
    assert!(display_output.contains("\"inner\":{\"data\":\"nested_data\"}"));
    assert!(display_output.contains("\"values\":[1,2,3]"));
}

#[test]
fn test_multiple_derives_same_struct() {
    let test = JsonValue::Obj(vec![
        ("id".to_string(), JsonValue::Int(123)),
        ("name".to_string(), JsonValue::Str("test".to_string())),
    ]);

    let debug_output = debug_pretty(&test);
    let display_output = display_simple(&test);

    // Debug should be pretty
    assert!(debug_output.contains("{\n"));
    assert!(debug_output.contains("  \"id\": 123"));

    // Display should be simple
    assert!(!display_output.contains("\n"));
    assert!(display_output.contains("{\"id\":123"));
}

#[test]
fn test_special_characters() {
    let special = JsonValue::Obj(vec![(
        "text".to_string(),
        JsonValue::Str("Hello \"world\" with\nnewlines and\ttabs".to_string()),
    )]);

    let debug_output = debug_simple(&special);

    // Should properly escape special characters
    assert!(debug_output.contains("\\\""));
    assert!(debug_output.contains("\\n"));
    assert!(debug_output.contains("\\t"));
}

#[test]
fn test_option_types() {
    let with_options = JsonValue::Obj(vec![
        (
            "some_value".to_string(),
            JsonValue::Str("present".to_string()),
        ),
        ("none_value".to_string(), JsonValue::Null),
    ]);

    let debug_output = debug_pretty(&with_options);

    assert!(debug_output.contains("\"some_value\": \"present\""));
    assert!(debug_output.contains("\"none_value\": null"));
}
