use artist_sync::json::{parse, Json, NotJson};

fn object(members: Vec<(&str, Json)>) -> Json {
    Json::Object(members.into_iter().map(|(k, v)| (k.to_string(), v)).collect())
}

#[test]
fn parse_reads_scalars() {
    assert!(matches!(parse("null"), Ok(Json::Null)));
    assert!(matches!(parse("true"), Ok(Json::Bool(true))));
    assert!(matches!(parse("false"), Ok(Json::Bool(false))));
    assert!(matches!(parse("42"), Ok(Json::Number(Some(42)))));
    assert!(matches!(parse("18446744073709551615"), Ok(Json::Number(Some(u64::MAX)))));
    assert!(matches!(parse("-1"), Ok(Json::Number(None))));
    assert!(matches!(parse("1.5"), Ok(Json::Number(None))));
    match parse("\"a\\nb\"") {
        Ok(Json::Text(s)) => assert_eq!(s, "a\nb"),
        other => panic!("{:?}", other.is_ok()),
    }
}

#[test]
fn parse_reads_a_tree() {
    let doc = parse("{\"artists\": {\"artist\": [{\"name\": \"A\", \"playcount\": \"10\"}], \"@attr\": {\"totalPages\": \"2\"}}}")
        .ok()
        .unwrap();
    let artists = doc.get("artists").unwrap();
    let list = artists.get("artist").unwrap().as_array().unwrap();
    assert_eq!(list.len(), 1);
    assert_eq!(list[0].get("name").unwrap().as_text(), Some("A"));
    assert_eq!(list[0].get("playcount").unwrap().as_text(), Some("10"));
    assert_eq!(artists.get("@attr").unwrap().get("totalPages").unwrap().as_text(), Some("2"));
    assert!(artists.get("missing").is_none());
}

#[test]
fn parse_refuses_what_is_no_json() {
    assert!(matches!(parse(""), Err(NotJson)));
    assert!(matches!(parse("{"), Err(NotJson)));
    assert!(matches!(parse("{\"a\": }"), Err(NotJson)));
    assert!(matches!(parse("[1, 2] trailing"), Err(NotJson)));
    assert!(matches!(parse("<html></html>"), Err(NotJson)));
}

#[test]
fn parse_keeps_the_last_of_two_members_of_one_key() {
    let doc = parse("{\"a\": 1, \"a\": 2}").ok().unwrap();
    assert_eq!(doc.get("a").unwrap().as_u64(), Some(2));
}

#[test]
fn get_finds_the_first_member_of_a_key() {
    let doc = object(vec![("a", Json::Number(Some(1))), ("b", Json::Null), ("a", Json::Number(Some(2)))]);
    assert_eq!(doc.get("a").unwrap().as_u64(), Some(1));
    assert!(matches!(doc.get("b"), Some(Json::Null)));
    assert!(doc.get("c").is_none());
}

#[test]
fn get_finds_nothing_in_what_is_no_object() {
    assert!(Json::Null.get("a").is_none());
    assert!(Json::Text("a".to_string()).get("a").is_none());
    assert!(Json::Array(vec![object(vec![("a", Json::Null)])]).get("a").is_none());
}

#[test]
fn accessors_tell_the_variants_apart() {
    let text = Json::Text("x".to_string());
    let number = Json::Number(Some(5));
    let array = Json::Array(vec![Json::Null]);
    assert_eq!(text.as_text(), Some("x"));
    assert_eq!(number.as_text(), None);
    assert_eq!(number.as_u64(), Some(5));
    assert_eq!(Json::Number(None).as_u64(), None);
    assert_eq!(text.as_u64(), None);
    assert_eq!(array.as_array().map(|v| v.len()), Some(1));
    assert!(text.as_array().is_none());
}
