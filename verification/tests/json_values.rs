use dockup::json::{element_in, get, get_in, parse_json, strings, text, JsonValue};
use dockup::table::KeyedTable;

fn s(v: &str) -> String {
    v.to_string()
}

#[test]
fn json_text_is_parsed_into_plain_values() {
    assert_eq!(
        parse_json(r#"[1, true, null, "x", -2.5]"#),
        Some(JsonValue::Array(vec![
            JsonValue::Number(s("1")),
            JsonValue::Bool(true),
            JsonValue::Null,
            JsonValue::Str(s("x")),
            JsonValue::Number(s("-2.5")),
        ]))
    );
    assert_eq!(parse_json("  \"a\\nb\" "), Some(JsonValue::Str(s("a\nb"))));
}

#[test]
fn object_members_come_sorted_by_key() {
    assert_eq!(
        parse_json(r#"{"b": 1, "a": {"c": []}}"#),
        Some(JsonValue::Object(vec![
            (s("a"), JsonValue::Object(vec![(s("c"), JsonValue::Array(vec![]))])),
            (s("b"), JsonValue::Number(s("1"))),
        ]))
    );
}

#[test]
fn text_that_is_not_json_parses_to_nothing() {
    assert_eq!(parse_json(""), None);
    assert_eq!(parse_json("{"), None);
    assert_eq!(parse_json("[1,]"), None);
    assert_eq!(parse_json("nginx"), None);
}

#[test]
fn members_are_read_by_key() {
    let v = parse_json(r#"{"a": {"b": "x"}, "l": ["p", 1, "q"]}"#).unwrap();
    assert_eq!(text(get_in(get(&v, "a"), "b")), Some(s("x")));
    assert_eq!(text(get(&v, "a")), None);
    assert!(get(&v, "zz").is_none());
    assert!(get_in(get(&v, "l"), "0").is_none());
    assert!(get_in(None, "a").is_none());
    assert_eq!(strings(get(&v, "l")), vec![Some(s("p")), None, Some(s("q"))]);
    assert!(strings(get(&v, "a")).is_empty());
    assert!(get(&JsonValue::Str(s("a")), "a").is_none());
}

#[test]
fn numbered_tokens_read_arrays_and_objects() {
    let v = parse_json(r#"{"a": ["x", "y"], "o": {"1": "one"}, "s": "z"}"#).unwrap();
    assert_eq!(text(element_in(get(&v, "a"), 1)), Some(s("y")));
    assert!(element_in(get(&v, "a"), 2).is_none());
    assert_eq!(text(element_in(get(&v, "o"), 1)), Some(s("one")));
    assert!(element_in(get(&v, "o"), 0).is_none());
    assert!(element_in(get(&v, "s"), 0).is_none());
    assert!(element_in(None, 0).is_none());
}

#[test]
fn keyed_table_keeps_one_value_per_key() {
    let mut t: KeyedTable<u8> = KeyedTable::new();
    assert!(t.keys().is_empty());
    t.insert(s("a"), 1);
    t.insert(s("b"), 2);
    t.insert(s("a"), 3);
    assert_eq!(t.get("a"), Some(&3));
    let mut keys = t.keys();
    keys.sort();
    assert_eq!(keys, vec![s("a"), s("b")]);
    t.remove("a");
    t.remove("missing");
    assert!(t.get("a").is_none());
    assert_eq!(t.keys(), vec![s("b")]);
}
