use qtwallset::json::{parse_json, Json};

#[test]
fn parses_an_object_in_text_order() {
    let parsed = parse_json("{\"b\": \"x\", \"a\": {\"c\": \"y\"}}").unwrap();
    let expected = Json::Object(vec![
        ("b".to_string(), Json::Text("x".to_string())),
        (
            "a".to_string(),
            Json::Object(vec![("c".to_string(), Json::Text("y".to_string()))]),
        ),
    ]);
    assert_eq!(parsed, expected);
}

#[test]
fn parses_every_kind_of_value() {
    let parsed = parse_json("[null, true, 7, \"seven\", [], {}]").unwrap();
    let expected = Json::Array(vec![
        Json::Null,
        Json::Bool(true),
        Json::Number(serde_json::Number::from(7)),
        Json::Text("seven".to_string()),
        Json::Array(vec![]),
        Json::Object(vec![]),
    ]);
    assert_eq!(parsed, expected);
}

#[test]
fn keeps_the_last_value_of_a_repeated_name() {
    let parsed = parse_json("{\"a\": \"first\", \"b\": \"x\", \"a\": \"last\"}").unwrap();
    let expected = Json::Object(vec![
        ("a".to_string(), Json::Text("last".to_string())),
        ("b".to_string(), Json::Text("x".to_string())),
    ]);
    assert_eq!(parsed, expected);
}

#[test]
fn turns_down_text_that_is_no_json() {
    let message = parse_json("{\"a\": ").unwrap_err();
    assert_eq!(message, "EOF while parsing a value at line 1 column 6");
}

#[test]
fn turns_down_trailing_text() {
    let message = parse_json("{} x").unwrap_err();
    assert_eq!(message, "trailing characters at line 1 column 4");
}

#[test]
fn turns_down_the_empty_text() {
    let message = parse_json("").unwrap_err();
    assert_eq!(message, "EOF while parsing a value at line 1 column 0");
}

#[test]
fn finds_the_first_member_of_a_name() {
    let document = Json::Object(vec![
        ("a".to_string(), Json::Text("first".to_string())),
        ("b".to_string(), Json::Null),
        ("a".to_string(), Json::Text("second".to_string())),
    ]);
    assert_eq!(document.member("a"), Some(&Json::Text("first".to_string())));
    assert_eq!(document.member("b"), Some(&Json::Null));
    assert_eq!(document.member("c"), None);
}

#[test]
fn finds_no_member_in_what_is_no_object() {
    assert_eq!(Json::Text("a".to_string()).member("a"), None);
    assert_eq!(Json::Array(vec![Json::Null]).member("0"), None);
    assert_eq!(Json::Null.member(""), None);
}

#[test]
fn reads_a_string_and_nothing_else_as_text() {
    assert_eq!(Json::Text("abc".to_string()).as_text(), Some("abc"));
    assert_eq!(Json::Text(String::new()).as_text(), Some(""));
    assert_eq!(Json::Null.as_text(), None);
    assert_eq!(Json::Bool(true).as_text(), None);
    assert_eq!(Json::Object(vec![]).as_text(), None);
}

#[test]
fn reads_a_member_that_is_a_string() {
    let document = Json::Object(vec![
        ("name".to_string(), Json::Text("value".to_string())),
        ("flag".to_string(), Json::Bool(false)),
    ]);
    assert_eq!(document.text_member("name"), Some("value"));
    assert_eq!(document.text_member("flag"), None);
    assert_eq!(document.text_member("other"), None);
}
