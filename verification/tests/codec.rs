use js_sandbox::json::{escape_string, get_field, is_finite_bits, json_text, JsonValue};
use js_sandbox::script::{display_value, json_to_script, script_to_json, CodecError, ScriptValue};

fn jstr(s: &str) -> JsonValue {
    JsonValue::Str(s.to_string())
}

fn sstr(s: &str) -> ScriptValue {
    ScriptValue::Str(s.to_string())
}

fn float_value(f: f64) -> ScriptValue {
    ScriptValue::Float {
        bits: f.to_bits(),
        text: f.to_string(),
    }
}

#[test]
fn test_json_return() {
    let value = ScriptValue::Object(vec![
        ("foo".to_string(), sstr("bar")),
        ("number".to_string(), ScriptValue::Int(42)),
        (
            "nested".to_string(),
            ScriptValue::Object(vec![(
                "array".to_string(),
                ScriptValue::Array(vec![
                    ScriptValue::Int(1),
                    ScriptValue::Int(2),
                    ScriptValue::Int(3),
                ]),
            )]),
        ),
    ]);
    let converted = script_to_json(&value).unwrap();
    let expected = JsonValue::Object(vec![
        ("foo".to_string(), jstr("bar")),
        ("number".to_string(), JsonValue::Int(42)),
        (
            "nested".to_string(),
            JsonValue::Object(vec![(
                "array".to_string(),
                JsonValue::Array(vec![
                    JsonValue::Int(1),
                    JsonValue::Int(2),
                    JsonValue::Int(3),
                ]),
            )]),
        ),
    ]);
    assert_eq!(converted, expected);
}

#[test]
fn test_division_by_zero() {
    // Division by zero yields an infinity, which cannot be represented
    // in JSON: conversion must fail, not silently coerce to null.
    let result = script_to_json(&float_value(1.0 / 0.0));
    assert_eq!(result, Err(CodecError::NonFiniteNumber));
    assert_eq!(CodecError::NonFiniteNumber.message(), "Invalid float value");
    let nan = script_to_json(&float_value(f64::NAN));
    assert!(nan.is_err());
}

#[test]
fn non_finite_number_fails_anywhere_in_the_structure() {
    let nested = ScriptValue::Object(vec![(
        "deep".to_string(),
        ScriptValue::Array(vec![ScriptValue::Int(1), float_value(f64::INFINITY)]),
    )]);
    assert!(script_to_json(&nested).is_err());
}

#[test]
fn null_and_undefined_both_become_json_null() {
    assert_eq!(script_to_json(&ScriptValue::Null), Ok(JsonValue::Null));
    assert_eq!(script_to_json(&ScriptValue::Undefined), Ok(JsonValue::Null));
}

#[test]
fn function_becomes_placeholder_string() {
    assert_eq!(
        script_to_json(&ScriptValue::Function),
        Ok(jstr("[Function]"))
    );
    assert_eq!(
        script_to_json(&ScriptValue::Unknown),
        Ok(jstr("[Unknown type]"))
    );
}

#[test]
fn finite_float_converts_with_its_rendering() {
    let converted = script_to_json(&float_value(1.5)).unwrap();
    assert_eq!(
        converted,
        JsonValue::Float {
            bits: (1.5f64).to_bits(),
            text: "1.5".to_string(),
        }
    );
}

#[test]
fn finiteness_follows_the_exponent_bits() {
    assert!(is_finite_bits((1.5f64).to_bits()));
    assert!(is_finite_bits(0));
    assert!(!is_finite_bits(f64::INFINITY.to_bits()));
    assert!(!is_finite_bits(f64::NEG_INFINITY.to_bits()));
    assert!(!is_finite_bits(f64::NAN.to_bits()));
}

#[test]
fn test_input_parameter() {
    // Seeding the input value into the evaluator and converting it back
    // returns it unchanged.
    let input = JsonValue::Object(vec![
        ("name".to_string(), jstr("test")),
        ("value".to_string(), JsonValue::Int(42)),
    ]);
    let seeded = json_to_script(&input).expect("input should seed");
    let back = script_to_json(&seeded).expect("seeded value should convert");
    assert_eq!(back, input);
}

#[test]
fn round_trip_preserves_every_engine_safe_shape() {
    let value = JsonValue::Array(vec![
        JsonValue::Null,
        JsonValue::Bool(true),
        JsonValue::Int(-7),
        JsonValue::Float {
            bits: (0.25f64).to_bits(),
            text: "0.25".to_string(),
        },
        jstr("hi"),
        JsonValue::Object(vec![("k".to_string(), JsonValue::Array(vec![]))]),
    ]);
    let seeded = json_to_script(&value).unwrap();
    assert_eq!(script_to_json(&seeded).unwrap(), value);
}

#[test]
fn seeding_fails_on_integers_beyond_the_engine_range() {
    assert!(json_to_script(&JsonValue::Int(5_000_000_000)).is_none());
    assert!(json_to_script(&JsonValue::Int(2147483647)).is_some());
    assert!(json_to_script(&JsonValue::Int(-2147483648)).is_some());
    assert!(json_to_script(&JsonValue::Int(-2147483649)).is_none());
}

#[test]
fn display_renders_scalars_and_tags_composites() {
    assert_eq!(display_value(&ScriptValue::Null), "null");
    assert_eq!(display_value(&ScriptValue::Undefined), "undefined");
    assert_eq!(display_value(&ScriptValue::Bool(true)), "true");
    assert_eq!(display_value(&ScriptValue::Bool(false)), "false");
    assert_eq!(display_value(&ScriptValue::Int(-41)), "-41");
    assert_eq!(display_value(&float_value(2.5)), "2.5");
    assert_eq!(display_value(&sstr("plain")), "plain");
    assert_eq!(display_value(&ScriptValue::Object(vec![])), "[Object]");
    assert_eq!(display_value(&ScriptValue::Array(vec![])), "[Array]");
    assert_eq!(display_value(&ScriptValue::Function), "[Function]");
    assert_eq!(display_value(&ScriptValue::Unknown), "[Unknown]");
}

#[test]
fn json_text_renders_the_standard_form() {
    let value = JsonValue::Object(vec![
        ("a".to_string(), JsonValue::Int(-3)),
        (
            "b".to_string(),
            JsonValue::Array(vec![JsonValue::Bool(false), JsonValue::Null, jstr("x")]),
        ),
    ]);
    assert_eq!(json_text(&value), "{\"a\":-3,\"b\":[false,null,\"x\"]}");
    assert_eq!(json_text(&JsonValue::Array(vec![])), "[]");
    assert_eq!(json_text(&JsonValue::Object(vec![])), "{}");
    assert_eq!(
        json_text(&JsonValue::Float {
            bits: (1.5f64).to_bits(),
            text: "1.5".to_string(),
        }),
        "1.5"
    );
}

#[test]
fn json_text_escapes_string_contents() {
    assert_eq!(escape_string("plain"), "plain");
    assert_eq!(escape_string("say \"hi\""), "say \\\"hi\\\"");
    assert_eq!(escape_string("back\\slash"), "back\\\\slash");
    assert_eq!(escape_string("line\nbreak\ttab\rret"), "line\\nbreak\\ttab\\rret");
    assert_eq!(escape_string("\u{8}\u{c}"), "\\b\\f");
    assert_eq!(escape_string("\u{1}\u{1f}"), "\\u0001\\u001f");
    assert_eq!(json_text(&jstr("a\"b")), "\"a\\\"b\"");
}

#[test]
fn get_field_finds_the_first_match() {
    let obj = JsonValue::Object(vec![
        ("k".to_string(), JsonValue::Int(1)),
        ("k".to_string(), JsonValue::Int(2)),
        ("other".to_string(), JsonValue::Int(3)),
    ]);
    assert_eq!(get_field(&obj, "k"), Some(&JsonValue::Int(1)));
    assert_eq!(get_field(&obj, "other"), Some(&JsonValue::Int(3)));
    assert_eq!(get_field(&obj, "missing"), None);
    assert_eq!(get_field(&JsonValue::Int(5), "k"), None);
}
