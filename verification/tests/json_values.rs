use codex_code_mode::bridge::required_string;
use codex_code_mode::text::{trim_whitespace, unknown_message_error, unknown_message_text};
use codex_code_mode::JsonValue;

fn s(text: &str) -> String {
    text.to_string()
}

fn object(entries: Vec<(&str, JsonValue)>) -> JsonValue {
    JsonValue::Object(entries.into_iter().map(|(k, v)| (s(k), v)).collect())
}

#[test]
fn get_finds_member_of_object() {
    let m = object(vec![("type", JsonValue::String(s("tool"))), ("id", JsonValue::Number(s("7")))]);
    assert_eq!(m.get("type"), Some(&JsonValue::String(s("tool"))));
    assert_eq!(m.get("id"), Some(&JsonValue::Number(s("7"))));
    assert_eq!(m.get("name"), None);
}

#[test]
fn get_on_non_object_finds_nothing() {
    let a = JsonValue::Array(vec![JsonValue::String(s("type"))]);
    assert_eq!(a.get("type"), None);
    assert_eq!(JsonValue::Null.get("type"), None);
}

#[test]
fn string_field_ignores_non_strings() {
    let m = object(vec![("id", JsonValue::Number(s("1"))), ("text", JsonValue::String(s("hi")))]);
    assert_eq!(m.string_field("id"), None);
    assert_eq!(m.string_field("text"), Some(s("hi")));
}

#[test]
fn required_string_present() {
    let m = object(vec![("id", JsonValue::String(s("3")))]);
    assert_eq!(required_string(&m, "id"), Ok(s("3")));
}

#[test]
fn required_string_missing_names_field() {
    let m = object(vec![("id", JsonValue::Bool(true))]);
    assert_eq!(
        required_string(&m, "id"),
        Err(s("Node code-mode message is missing string field id"))
    );
    assert_eq!(
        required_string(&JsonValue::Null, "text"),
        Err(s("Node code-mode message is missing string field text"))
    );
}

#[test]
fn deep_copy_is_equal() {
    let m = object(vec![
        ("a", JsonValue::Array(vec![JsonValue::Null, JsonValue::Bool(false)])),
        ("b", object(vec![("c", JsonValue::Number(s("1.5")))])),
    ]);
    assert_eq!(m.deep_copy(), m);
}

#[test]
fn trim_removes_surrounding_whitespace() {
    assert_eq!(trim_whitespace("  error: boom \n\t"), s("error: boom"));
    assert_eq!(trim_whitespace("\u{3000}x y\u{a0}"), s("x y"));
    assert_eq!(trim_whitespace(" \r\n "), s(""));
    assert_eq!(trim_whitespace(""), s(""));
    assert_eq!(trim_whitespace("inner  space"), s("inner  space"));
}

#[test]
fn trim_agrees_with_std() {
    for text in ["", " a ", "\u{85}b\u{2029}", "\u{200b}c\u{200b}", "\u{180e}d", "x\u{1680}"] {
        assert_eq!(trim_whitespace(text), text.trim().to_string());
    }
}

#[test]
fn unknown_message_error_quotes_the_type() {
    assert_eq!(unknown_message_error(None), s("unknown Node code-mode message: None"));
    assert_eq!(
        unknown_message_error(Some("tool2")),
        s("unknown Node code-mode message: Some(\"tool2\")")
    );
    assert_eq!(
        unknown_message_error(Some("a\"b")),
        s("unknown Node code-mode message: Some(\"a\\\"b\")")
    );
}

#[test]
fn unknown_message_text_wraps_debug_text() {
    assert_eq!(
        unknown_message_text(Some(s("\"x\""))),
        s("unknown Node code-mode message: Some(\"x\")")
    );
}
