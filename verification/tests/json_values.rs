use qwen_session::json::{parse_json, Json, Member};

#[test]
fn parse_reads_nested_object() {
    let parsed = parse_json("{\"event\":{\"delta\":{\"text\":\"hi\"}}}").expect("a document");
    let expected = Json::Object(vec![Member {
        key: "event".to_string(),
        value: Json::Object(vec![Member {
            key: "delta".to_string(),
            value: Json::Object(vec![Member {
                key: "text".to_string(),
                value: Json::Text("hi".to_string()),
            }]),
        }]),
    }]);
    assert_eq!(parsed, expected);
}

#[test]
fn parse_rejects_plain_text() {
    assert_eq!(parse_json("plain text"), None);
}

#[test]
fn parse_keeps_scalars_and_arrays() {
    let parsed = parse_json("[null, true, 12, \"a\"]").expect("a document");
    assert_eq!(
        parsed,
        Json::Array(vec![Json::Null, Json::Bool(true), Json::Number, Json::Text("a".to_string())])
    );
}

#[test]
fn member_finds_text() {
    let parsed = parse_json("{\"type\":\"result\",\"result\":\"done\"}").expect("a document");
    assert_eq!(parsed.text_member("result"), Some("done"));
    assert_eq!(parsed.text_member("missing"), None);
    assert_eq!(parsed.member("type").and_then(|j| j.text()), Some("result"));
}
