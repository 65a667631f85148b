use chat_relay::json::{Json, Member};

fn text(s: &str) -> Json {
    Json::Text(s.to_string())
}

fn member(key: &str, value: Json) -> Member {
    Member { key: key.to_string(), value }
}

#[test]
fn parses_every_kind_of_value() {
    let parsed = Json::parse(br#"{"a": null, "b": true, "c": 12, "d": "x", "e": [1, "y"]}"#);
    let expected = Json::Object(vec![
        member("a", Json::Null),
        member("b", Json::Bool(true)),
        member("c", Json::Number("12".to_string())),
        member("d", text("x")),
        member("e", Json::Array(vec![Json::Number("1".to_string()), text("y")])),
    ]);
    assert_eq!(parsed, Some(expected));
}

#[test]
fn keeps_numbers_as_their_decimal_text() {
    let parsed = Json::parse(b"[1, 0.7, 1.0, 4096, -2, 1e3, 0.0]").unwrap();
    let texts: Vec<String> = match parsed {
        Json::Array(items) => items
            .into_iter()
            .map(|item| match item {
                Json::Number(digits) => digits,
                other => panic!("no number: {:?}", other),
            })
            .collect(),
        other => panic!("no array: {:?}", other),
    };
    assert_eq!(texts, vec!["1", "0.7", "1.0", "4096", "-2", "1000.0", "0.0"]);
}

#[test]
fn refuses_what_is_no_json() {
    assert_eq!(Json::parse(b""), None);
    assert_eq!(Json::parse(b"{"), None);
    assert_eq!(Json::parse(b"{\"a\": }"), None);
    assert_eq!(Json::parse(b"[1, 2] trailing"), None);
    assert_eq!(Json::parse(&[0xff, 0xfe]), None);
    assert_eq!(Json::parse(b"<html>429 Too Many Requests</html>"), None);
}

#[test]
fn parses_scalars_at_the_top() {
    assert_eq!(Json::parse(b"null"), Some(Json::Null));
    assert_eq!(Json::parse(b"\"hi\""), Some(text("hi")));
    assert_eq!(Json::parse(b" 42 "), Some(Json::Number("42".to_string())));
}

#[test]
fn unescapes_strings() {
    assert_eq!(Json::parse(r#""a\nbé\"\u0041""#.as_bytes()), Some(text("a\nb\u{e9}\"A")));
}

#[test]
fn later_duplicate_key_counts_when_parsing() {
    let parsed = Json::parse(br#"{"a": 1, "a": 2}"#).unwrap();
    assert_eq!(parsed.member("a"), Some(&Json::Number("2".to_string())));
}

#[test]
fn later_duplicate_key_counts_when_built_by_hand() {
    let doc = Json::Object(vec![member("a", text("first")), member("b", Json::Null), member("a", text("second"))]);
    assert_eq!(doc.member("a"), Some(&text("second")));
    assert_eq!(doc.member("b"), Some(&Json::Null));
    assert_eq!(doc.member("c"), None);
}

#[test]
fn member_of_what_is_no_object_is_absent() {
    assert_eq!(Json::Null.member("a"), None);
    assert_eq!(text("a").member("a"), None);
    assert_eq!(Json::Array(vec![text("a")]).member("0"), None);
    assert_eq!(Json::Object(vec![]).member("a"), None);
}

#[test]
fn member_keys_are_compared_whole() {
    let doc = Json::Object(vec![member("content", text("x"))]);
    assert_eq!(doc.member("conten"), None);
    assert_eq!(doc.member("contents"), None);
    assert_eq!(doc.member("Content"), None);
    assert_eq!(doc.member(""), None);
    assert_eq!(doc.member("content"), Some(&text("x")));
}

#[test]
fn element_of_an_array() {
    let doc = Json::Array(vec![text("a"), text("b")]);
    assert_eq!(doc.element(0), Some(&text("a")));
    assert_eq!(doc.element(1), Some(&text("b")));
    assert_eq!(doc.element(2), None);
    assert_eq!(doc.element(usize::MAX), None);
}

#[test]
fn element_of_what_is_no_array_is_absent() {
    assert_eq!(Json::Null.element(0), None);
    assert_eq!(Json::Object(vec![member("0", text("x"))]).element(0), None);
    assert_eq!(Json::Array(vec![]).element(0), None);
}

#[test]
fn text_of_a_string_only() {
    assert_eq!(text("hello").as_text(), Some(&"hello".to_string()));
    assert_eq!(text("").as_text(), Some(&String::new()));
    assert_eq!(Json::Number("1".to_string()).as_text(), None);
    assert_eq!(Json::Null.as_text(), None);
    assert_eq!(Json::Bool(true).as_text(), None);
    assert_eq!(Json::Array(vec![text("a")]).as_text(), None);
}

#[test]
fn navigation_agrees_with_serde_json() {
    let bodies: [&[u8]; 6] = [
        br#"{"k": {"n": [10, {"deep": "v"}]}}"#,
        br#"{"k": [1, 2, 3]}"#,
        br#"{"k": null}"#,
        br#"[{"k": "v"}]"#,
        br#"{"k": {"0": "not an element"}}"#,
        br#""just text""#,
    ];
    for body in bodies {
        let ours = Json::parse(body).unwrap();
        let theirs: serde_json::Value = serde_json::from_slice(body).unwrap();
        let ours_text = ours
            .member("k")
            .and_then(|k| k.member("n"))
            .and_then(|n| n.element(1))
            .and_then(|e| e.member("deep"))
            .and_then(|d| d.as_text())
            .map(|s| s.as_str());
        assert_eq!(ours_text, theirs["k"]["n"][1]["deep"].as_str());
        let ours_zero = ours.member("k").and_then(|k| k.element(0)).is_some();
        assert_eq!(ours_zero, theirs.get("k").and_then(|k| k.get(0)).is_some());
    }
}
