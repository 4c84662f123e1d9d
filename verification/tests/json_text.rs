use tgbotapi::json::{to_json_bytes, JsonValue};

fn obj(pairs: Vec<(&str, JsonValue)>) -> JsonValue {
    let mut entries = Vec::new();
    for (key, value) in pairs {
        entries.push((key.to_string(), value));
    }
    JsonValue::Object(entries)
}

fn text(s: &str) -> JsonValue {
    JsonValue::Text(s.to_string())
}

#[test]
fn test_scalars() {
    assert_eq!(to_json_bytes(&JsonValue::Null), b"null");
    assert_eq!(to_json_bytes(&JsonValue::Bool(true)), b"true");
    assert_eq!(to_json_bytes(&JsonValue::Bool(false)), b"false");
    assert_eq!(to_json_bytes(&JsonValue::Int(0)), b"0");
    assert_eq!(to_json_bytes(&JsonValue::Int(42)), b"42");
    assert_eq!(to_json_bytes(&JsonValue::Int(-7)), b"-7");
    assert_eq!(
        to_json_bytes(&JsonValue::Int(i64::MAX)),
        b"9223372036854775807"
    );
    assert_eq!(
        to_json_bytes(&JsonValue::Int(i64::MIN)),
        b"-9223372036854775808"
    );
}

#[test]
fn test_strings_and_escapes() {
    assert_eq!(to_json_bytes(&text("hello")), b"\"hello\"");
    assert_eq!(to_json_bytes(&text("")), b"\"\"");
    assert_eq!(to_json_bytes(&text("a\"b")), b"\"a\\\"b\"");
    assert_eq!(to_json_bytes(&text("a\\b")), b"\"a\\\\b\"");
    assert_eq!(to_json_bytes(&text("a\nb\tc\r")), b"\"a\\nb\\tc\\r\"");
    assert_eq!(to_json_bytes(&text("\u{0008}\u{000C}")), b"\"\\b\\f\"");
    assert_eq!(to_json_bytes(&text("\u{0001}\u{001f}")), b"\"\\u0001\\u001f\"");
    // Multi-byte characters pass through as their UTF-8 bytes.
    assert_eq!(to_json_bytes(&text("héllo")), "\"héllo\"".as_bytes());
}

#[test]
fn test_composites() {
    let value = obj(vec![
        ("a", JsonValue::List(vec![JsonValue::Int(1), JsonValue::Int(2)])),
        ("b", obj(vec![("c", JsonValue::Null)])),
        ("d", text("x")),
    ]);
    assert_eq!(
        to_json_bytes(&value),
        br#"{"a":[1,2],"b":{"c":null},"d":"x"}"#
    );
    assert_eq!(to_json_bytes(&JsonValue::List(vec![])), b"[]");
    assert_eq!(to_json_bytes(&obj(vec![])), b"{}");
}

#[test]
fn test_agrees_with_reference_parser() {
    let value = obj(vec![
        ("id", JsonValue::Int(123)),
        ("name", text("te\"st\n")),
        ("tags", JsonValue::List(vec![text("a"), text("b")])),
        ("flag", JsonValue::Bool(true)),
        ("nothing", JsonValue::Null),
    ]);
    let bytes = to_json_bytes(&value);
    let parsed: serde_json::Value = serde_json::from_slice(&bytes).expect("output parses");

    let mut tags = Vec::new();
    tags.push(serde_json::Value::String("a".to_string()));
    tags.push(serde_json::Value::String("b".to_string()));
    let mut expected = serde_json::Map::new();
    expected.insert("id".to_string(), serde_json::Value::from(123i64));
    expected.insert(
        "name".to_string(),
        serde_json::Value::String("te\"st\n".to_string()),
    );
    expected.insert("tags".to_string(), serde_json::Value::Array(tags));
    expected.insert("flag".to_string(), serde_json::Value::Bool(true));
    expected.insert("nothing".to_string(), serde_json::Value::Null);
    assert_eq!(parsed, serde_json::Value::Object(expected));
}

#[test]
fn test_lookup() {
    let value = obj(vec![("a", JsonValue::Int(1)), ("b", text("x"))]);
    assert_eq!(value.get("a"), Some(&JsonValue::Int(1)));
    assert_eq!(value.get("b"), Some(&JsonValue::Text("x".to_string())));
    assert_eq!(value.get("c"), None);
    assert_eq!(JsonValue::Null.get("a"), None);
}
