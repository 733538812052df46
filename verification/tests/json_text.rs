use crypto_checker::json::Json;
use crypto_checker::providers::parse_body;
use crypto_checker::text::{decimal_string, join_strs};

#[test]
fn parse_and_walk() {
    let j = parse_body(r#"{"b": [1, "x", null, true], "a": {"k": "v"}}"#).unwrap();
    // serde_json hands object members out sorted by key.
    match &j {
        Json::Object(members) => {
            assert_eq!(members.len(), 2);
            assert_eq!(members[0].0, "a");
            assert_eq!(members[1].0, "b");
        }
        other => panic!("unexpected {:?}", other),
    }
    let b = j.get_key("b").unwrap();
    assert!(matches!(b.get_index(0), Some(Json::Number(n)) if n == "1"));
    assert_eq!(b.get_index(1).unwrap().as_str(), Some("x"));
    assert!(matches!(b.get_index(2), Some(Json::Null)));
    assert!(matches!(b.get_index(3), Some(Json::Bool(true))));
    assert!(b.get_index(4).is_none());
    assert!(b.get_key("k").is_none());
    assert_eq!(j.get_first_value().unwrap().get_key("k").unwrap().as_str(), Some("v"));
    assert!(j.get_key("c").is_none());
    assert!(j.as_str().is_none());
    assert!(parse_body("[1,").is_err());
    assert!(parse_body("").is_err());
}

#[test]
fn text_helpers() {
    assert_eq!(decimal_string(0), "0");
    assert_eq!(decimal_string(7), "7");
    assert_eq!(decimal_string(10), "10");
    assert_eq!(decimal_string(18446744073709551615), "18446744073709551615");
    assert_eq!(join_strs(&[], ", "), "");
    assert_eq!(join_strs(&["a"], ", "), "a");
    assert_eq!(join_strs(&["a", "b", "c"], "-"), "a-b-c");
}
