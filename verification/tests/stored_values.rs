use codex_code_mode::{JsonValue, StoredValues};

fn s(text: &str) -> String {
    text.to_string()
}

fn member<'a>(o: &'a JsonValue, key: &str) -> Option<&'a JsonValue> {
    o.get(key)
}

#[test]
fn new_store_is_empty() {
    let store = StoredValues::new();
    assert_eq!(store.get("a"), None);
    assert_eq!(store.snapshot(), JsonValue::Object(vec![]));
}

#[test]
fn insert_then_get() {
    let mut store = StoredValues::new();
    store.insert(s("a"), JsonValue::Number(s("1")));
    store.insert(s("b"), JsonValue::String(s("two")));
    assert_eq!(store.get("a"), Some(JsonValue::Number(s("1"))));
    assert_eq!(store.get("b"), Some(JsonValue::String(s("two"))));
    assert_eq!(store.get("c"), None);
}

#[test]
fn insert_replaces_existing_key() {
    let mut store = StoredValues::new();
    store.insert(s("a"), JsonValue::Number(s("1")));
    store.insert(s("a"), JsonValue::Bool(true));
    assert_eq!(store.get("a"), Some(JsonValue::Bool(true)));
    match store.snapshot() {
        JsonValue::Object(entries) => assert_eq!(entries.len(), 1),
        other => panic!("not an object: {other:?}"),
    }
}

#[test]
fn later_write_wins() {
    let mut store = StoredValues::new();
    store.insert(s("kept"), JsonValue::Null);
    store.insert(s("k"), JsonValue::Number(s("0")));
    store.store_writes(vec![
        (s("k"), JsonValue::Number(s("1"))),
        (s("x"), JsonValue::String(s("y"))),
        (s("k"), JsonValue::Number(s("2"))),
    ]);
    assert_eq!(store.get("k"), Some(JsonValue::Number(s("2"))));
    assert_eq!(store.get("x"), Some(JsonValue::String(s("y"))));
    assert_eq!(store.get("kept"), Some(JsonValue::Null));
}

#[test]
fn snapshot_holds_every_stored_value() {
    let mut store = StoredValues::new();
    store.store_writes(vec![
        (s("a"), JsonValue::Array(vec![JsonValue::Bool(false)])),
        (s("b"), JsonValue::Number(s("3"))),
    ]);
    let snap = store.snapshot();
    assert_eq!(member(&snap, "a"), Some(&JsonValue::Array(vec![JsonValue::Bool(false)])));
    assert_eq!(member(&snap, "b"), Some(&JsonValue::Number(s("3"))));
    assert_eq!(member(&snap, "c"), None);
}
