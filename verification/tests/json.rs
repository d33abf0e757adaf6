use favsync::json::Json;

fn text(s: &str) -> Json {
    Json::Text(s.to_string())
}

fn object(members: Vec<(&str, Json)>) -> Json {
    Json::Object(members.into_iter().map(|(k, v)| (k.to_string(), v)).collect())
}

#[test]
fn get_finds_member_by_name() {
    let doc = object(vec![("a", Json::Number(Some(1))), ("b", text("two"))]);
    assert_eq!(doc.get("a"), Some(&Json::Number(Some(1))));
    assert_eq!(doc.get("b"), Some(&text("two")));
    assert_eq!(doc.get("c"), None);
    assert_eq!(doc.get(""), None);
}

#[test]
fn get_takes_first_of_repeated_names() {
    let doc = object(vec![("a", Json::Number(Some(1))), ("a", Json::Number(Some(2)))]);
    assert_eq!(doc.get("a"), Some(&Json::Number(Some(1))));
}

#[test]
fn get_on_non_object_finds_nothing() {
    assert_eq!(Json::Null.get("a"), None);
    assert_eq!(text("a").get("a"), None);
    assert_eq!(Json::Array(vec![text("a")]).get("a"), None);
}

#[test]
fn accessors_answer_only_for_their_kind() {
    assert_eq!(text("hi").as_str(), Some("hi"));
    assert_eq!(Json::Null.as_str(), None);
    assert_eq!(Json::Number(Some(18446744073709551615)).as_u64(), Some(u64::MAX));
    assert_eq!(Json::Number(None).as_u64(), None);
    assert_eq!(text("5").as_u64(), None);
    assert_eq!(Json::Bool(true).as_u64(), None);
    let items = vec![Json::Null, Json::Bool(false)];
    assert_eq!(Json::Array(vec![Json::Null, Json::Bool(false)]).as_array(), Some(&items));
    assert_eq!(object(vec![]).as_array(), None);
}
