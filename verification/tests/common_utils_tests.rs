use s1_mcp_client_rust::json::{
    escape_python_single_quoted_string, format_action_for_error, is_truthy, python_like_text, JsonNumber, JsonValue,
};

fn s(text: &str) -> JsonValue {
    JsonValue::String(text.to_string())
}

fn integer(n: i64) -> JsonValue {
    if n >= 0 {
        JsonValue::Number(JsonNumber::PosInt(n as u64))
    } else {
        JsonValue::Number(JsonNumber::NegInt(n))
    }
}

fn float(text: &str) -> JsonValue {
    JsonValue::Number(JsonNumber::Float(text.to_string()))
}

fn obj(entries: Vec<(&str, JsonValue)>) -> JsonValue {
    JsonValue::Object(entries.into_iter().map(|(k, v)| (k.to_string(), v)).collect())
}

#[test]
fn python_like_text_null_is_none() {
    assert_eq!(python_like_text(&JsonValue::Null), "None");
}

#[test]
fn python_like_text_booleans() {
    assert_eq!(python_like_text(&JsonValue::Bool(true)), "True");
    assert_eq!(python_like_text(&JsonValue::Bool(false)), "False");
}

#[test]
fn python_like_text_numbers() {
    assert_eq!(python_like_text(&integer(42)), "42");
    assert_eq!(python_like_text(&integer(-7)), "-7");
    assert_eq!(python_like_text(&float("3.14")), "3.14");
}

#[test]
fn python_like_text_string_top_level_no_quotes() {
    assert_eq!(python_like_text(&s("hello")), "hello");
}

#[test]
fn python_like_text_string_in_array_single_quoted() {
    let result = python_like_text(&JsonValue::Array(vec![s("a"), s("b")]));
    assert_eq!(result, "['a', 'b']");
}

#[test]
fn python_like_text_nested_array() {
    let value = JsonValue::Array(vec![JsonValue::Array(vec![integer(1), integer(2)]), JsonValue::Array(vec![integer(3)])]);
    assert_eq!(python_like_text(&value), "[[1, 2], [3]]");
}

#[test]
fn python_like_text_object() {
    let result = python_like_text(&obj(vec![("key", s("val"))]));
    assert_eq!(result, "{'key': 'val'}");
}

#[test]
fn python_like_text_object_mixed_types() {
    let result = python_like_text(&obj(vec![("a", integer(1)), ("b", JsonValue::Bool(true)), ("c", JsonValue::Null)]));
    assert!(result.contains("'a': 1"));
    assert!(result.contains("'b': True"));
    assert!(result.contains("'c': None"));
}

#[test]
fn python_like_text_escapes_backslash_in_key() {
    let result = python_like_text(&obj(vec![("a\\b", s("v"))]));
    assert!(result.contains("'a\\\\b'"), "backslash must be escaped: {result}");
}

#[test]
fn python_like_text_escapes_single_quote_in_string() {
    let result = python_like_text(&JsonValue::Array(vec![s("it's")]));
    assert_eq!(result, "['it\\'s']", "single quotes must be escaped: {result}");
}

#[test]
fn python_like_text_empty_containers_and_big_numbers() {
    assert_eq!(python_like_text(&JsonValue::Array(vec![])), "[]");
    assert_eq!(python_like_text(&obj(vec![])), "{}");
    assert_eq!(python_like_text(&JsonValue::Number(JsonNumber::PosInt(u64::MAX))), "18446744073709551615");
    assert_eq!(python_like_text(&JsonValue::Number(JsonNumber::NegInt(i64::MIN))), "-9223372036854775808");
    assert_eq!(python_like_text(&integer(0)), "0");
}

#[test]
fn python_like_text_nested_object_in_array() {
    let value = JsonValue::Array(vec![obj(vec![("k", s("v")), ("n", JsonValue::Null)]), s("x")]);
    assert_eq!(python_like_text(&value), "[{'k': 'v', 'n': None}, 'x']");
}

#[test]
fn escape_python_single_quoted_string_doubles_backslashes_and_escapes_quotes() {
    assert_eq!(escape_python_single_quoted_string("a\\b'c"), "a\\\\b\\'c");
    assert_eq!(escape_python_single_quoted_string(""), "");
    assert_eq!(escape_python_single_quoted_string("plain"), "plain");
}

#[test]
fn is_truthy_null_is_false() {
    assert!(!is_truthy(&JsonValue::Null));
}

#[test]
fn is_truthy_booleans() {
    assert!(is_truthy(&JsonValue::Bool(true)));
    assert!(!is_truthy(&JsonValue::Bool(false)));
}

#[test]
fn is_truthy_numbers() {
    assert!(is_truthy(&integer(1)));
    assert!(is_truthy(&integer(-1)));
    assert!(is_truthy(&float("0.1")));
    assert!(!is_truthy(&integer(0)));
    assert!(!is_truthy(&float("0.0")));
}

#[test]
fn is_truthy_float_texts() {
    assert!(!is_truthy(&float("-0.0")));
    assert!(is_truthy(&float("1e-7")));
    assert!(!is_truthy(&float("0e5")));
    assert!(is_truthy(&float("5e-324")));
}

#[test]
fn is_truthy_strings() {
    assert!(is_truthy(&s("hello")));
    assert!(!is_truthy(&s("")));
}

#[test]
fn is_truthy_arrays() {
    assert!(is_truthy(&JsonValue::Array(vec![integer(1)])));
    assert!(!is_truthy(&JsonValue::Array(vec![])));
}

#[test]
fn is_truthy_objects() {
    assert!(is_truthy(&obj(vec![("k", s("v"))])));
    assert!(!is_truthy(&obj(vec![])));
}

#[test]
fn format_action_for_error_none_is_python_none() {
    assert_eq!(format_action_for_error(None), "None");
}

#[test]
fn format_action_for_error_string_value() {
    assert_eq!(format_action_for_error(Some(&s("get"))), "get");
}

#[test]
fn format_action_for_error_null_value() {
    assert_eq!(format_action_for_error(Some(&JsonValue::Null)), "None");
}

#[test]
fn format_action_for_error_integer_value() {
    assert_eq!(format_action_for_error(Some(&integer(42))), "42");
}

fn unescape(text: &str) -> String {
    let mut out = String::new();
    let mut chars = text.chars();
    while let Some(c) = chars.next() {
        if c == '\\' {
            if let Some(next) = chars.next() {
                out.push(next);
                continue;
            }
        }
        out.push(c);
    }
    out
}

#[test]
fn escaped_text_reads_back_unchanged() {
    for sample in ["", "plain", "it's", "a\\b", "\\'", "''\\\\", "tail\\"] {
        assert_eq!(unescape(&escape_python_single_quoted_string(sample)), sample);
    }
}
