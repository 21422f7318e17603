use oneiromancer::json::{Json, Member};

fn member(key: &str, value: Json) -> Member {
    Member { key: key.to_string(), value }
}

#[test]
fn parse_reads_scalars() {
    assert_eq!(Json::parse("null").unwrap(), Json::Null);
    assert_eq!(Json::parse("true").unwrap(), Json::Bool(true));
    assert_eq!(Json::parse("false").unwrap(), Json::Bool(false));
    assert_eq!(Json::parse("42").unwrap(), Json::Number("42".to_string()));
    assert_eq!(Json::parse("-7").unwrap(), Json::Number("-7".to_string()));
    assert_eq!(Json::parse("1.5").unwrap(), Json::Number("1.5".to_string()));
    assert_eq!(Json::parse("\"hi\"").unwrap(), Json::Text("hi".to_string()));
}

#[test]
fn parse_decodes_string_escapes() {
    assert_eq!(
        Json::parse("\"a\\n\\\"b\\\" \\u0041\"").unwrap(),
        Json::Text("a\n\"b\" A".to_string())
    );
}

#[test]
fn parse_reads_arrays_in_order() {
    assert_eq!(
        Json::parse("[1, \"two\", [null]]").unwrap(),
        Json::Array(vec![
            Json::Number("1".to_string()),
            Json::Text("two".to_string()),
            Json::Array(vec![Json::Null]),
        ])
    );
    assert_eq!(Json::parse("[]").unwrap(), Json::Array(vec![]));
}

#[test]
fn parse_reads_objects() {
    assert_eq!(
        Json::parse("{\"a\": {\"b\": true}}").unwrap(),
        Json::Object(vec![member("a", Json::Object(vec![member("b", Json::Bool(true))]))])
    );
    assert_eq!(Json::parse("{}").unwrap(), Json::Object(vec![]));
}

#[test]
fn parse_allows_whitespace_around_the_document() {
    assert_eq!(Json::parse(" \n\t[ ] \r\n").unwrap(), Json::Array(vec![]));
}

#[test]
fn parse_rejects_the_empty_text() {
    assert!(Json::parse("").is_err());
    assert!(Json::parse("   ").is_err());
}

#[test]
fn parse_rejects_what_is_not_json() {
    assert!(Json::parse("{").is_err());
    assert!(Json::parse("[1,]").is_err());
    assert!(Json::parse("{\"a\" 1}").is_err());
    assert!(Json::parse("hello").is_err());
    assert!(Json::parse("'single'").is_err());
}

#[test]
fn parse_rejects_text_after_the_document() {
    assert!(Json::parse("{} {}").is_err());
    assert!(Json::parse("1 2").is_err());
}

#[test]
fn get_finds_a_member_by_its_key() {
    let document = Json::parse("{\"a\": 1, \"b\": \"x\"}").unwrap();
    assert_eq!(document.get("a"), Some(&Json::Number("1".to_string())));
    assert_eq!(document.get("b"), Some(&Json::Text("x".to_string())));
    assert_eq!(document.get("c"), None);
    assert_eq!(document.get(""), None);
}

#[test]
fn get_takes_the_first_of_two_members_with_one_key() {
    let document = Json::Object(vec![member("k", Json::Bool(true)), member("k", Json::Null)]);
    assert_eq!(document.get("k"), Some(&Json::Bool(true)));
}

#[test]
fn get_finds_nothing_outside_objects() {
    assert_eq!(Json::Null.get("a"), None);
    assert_eq!(Json::Text("a".to_string()).get("a"), None);
    assert_eq!(Json::Array(vec![Json::Text("a".to_string())]).get("a"), None);
}

#[test]
fn as_text_gives_the_characters_of_a_string_only() {
    assert_eq!(Json::Text("abc".to_string()).as_text(), Some("abc"));
    assert_eq!(Json::Text(String::new()).as_text(), Some(""));
    assert_eq!(Json::Number("1".to_string()).as_text(), None);
    assert_eq!(Json::Null.as_text(), None);
    assert_eq!(Json::Array(vec![]).as_text(), None);
}

#[test]
fn as_array_gives_the_elements_of_an_array_only() {
    let array = Json::Array(vec![Json::Null, Json::Bool(false)]);
    assert_eq!(array.as_array(), Some(&vec![Json::Null, Json::Bool(false)]));
    assert_eq!(Json::Object(vec![]).as_array(), None);
    assert_eq!(Json::Text("[]".to_string()).as_array(), None);
}
