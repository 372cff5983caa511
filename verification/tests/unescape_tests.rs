use openai_wire::unescape::{JsonValue, unescape_json_values, unescape_text};

fn obj(entries: Vec<(&str, JsonValue)>) -> JsonValue {
    JsonValue::Obj(
        entries
            .into_iter()
            .map(|(k, v)| (k.to_string(), v))
            .collect(),
    )
}

fn s(text: &str) -> JsonValue {
    JsonValue::Str(text.to_string())
}

#[test]
fn unescape_json_values_with_object() {
    let value = obj(vec![("text", s("Hello\\nWorld"))]);
    let unescaped_value = unescape_json_values(&value);
    assert_eq!(unescaped_value, obj(vec![("text", s("Hello\nWorld"))]));
}

#[test]
fn unescape_json_values_with_array() {
    let value = JsonValue::Arr(vec![s("Hello\\nWorld"), s("Goodbye\\tWorld")]);
    let unescaped_value = unescape_json_values(&value);
    assert_eq!(
        unescaped_value,
        JsonValue::Arr(vec![s("Hello\nWorld"), s("Goodbye\tWorld")])
    );
}

#[test]
fn unescape_json_values_with_string() {
    let value = s("Hello\\nWorld");
    let unescaped_value = unescape_json_values(&value);
    assert_eq!(unescaped_value, s("Hello\nWorld"));
}

#[test]
fn unescape_json_values_with_mixed_content() {
    let value = obj(vec![
        ("text", s("Hello\\nWorld\\\\n!")),
        (
            "array",
            JsonValue::Arr(vec![s("Goodbye\\tWorld"), s("See you\\rlater")]),
        ),
        ("nested", obj(vec![("inner_text", s("Inner\\\"Quote\\\""))])),
    ]);
    let unescaped_value = unescape_json_values(&value);
    assert_eq!(
        unescaped_value,
        obj(vec![
            ("text", s("Hello\nWorld\n!")),
            (
                "array",
                JsonValue::Arr(vec![s("Goodbye\tWorld"), s("See you\rlater")]),
            ),
            ("nested", obj(vec![("inner_text", s("Inner\"Quote\""))])),
        ])
    );
}

#[test]
fn unescape_json_values_with_no_escapes() {
    let value = obj(vec![("text", s("Hello World"))]);
    let unescaped_value = unescape_json_values(&value);
    assert_eq!(unescaped_value, obj(vec![("text", s("Hello World"))]));
}

#[test]
fn unescape_text_single_and_double_escapes() {
    assert_eq!(unescape_text("Hello\\nWorld"), "Hello\nWorld");
    assert_eq!(unescape_text("Hello\\\\nWorld"), "Hello\nWorld");
}

#[test]
fn unescape_json_values_leaves_other_leaves_alone() {
    let value = JsonValue::Arr(vec![
        JsonValue::Null,
        JsonValue::Bool(true),
        JsonValue::Int(-7),
        JsonValue::Num("3.25".to_string()),
        s("a\\tb"),
    ]);
    let unescaped = unescape_json_values(&value);
    assert_eq!(
        unescaped,
        JsonValue::Arr(vec![
            JsonValue::Null,
            JsonValue::Bool(true),
            JsonValue::Int(-7),
            JsonValue::Num("3.25".to_string()),
            s("a\tb"),
        ])
    );
}
