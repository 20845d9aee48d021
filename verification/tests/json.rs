use fantoccini::json::{position, put, take, take_all, Json, Number};

fn json_members(members: Vec<(&str, Json)>) -> Vec<(String, Json)> {
    members.into_iter().map(|(k, v)| (k.to_string(), v)).collect()
}

fn json_text(s: &str) -> Json {
    Json::String(s.to_string())
}

#[test]
fn as_u64_reads_non_negative_integers() {
    assert_eq!(Json::Number(Number::Unsigned(7)).as_u64(), Some(7));
    assert_eq!(Json::Number(Number::Unsigned(u64::MAX)).as_u64(), Some(u64::MAX));
    assert_eq!(Json::Number(Number::Signed(5)).as_u64(), Some(5));
    assert_eq!(Json::Number(Number::Signed(-1)).as_u64(), None);
    assert_eq!(Json::Number(Number::Float(0x3ff0000000000000)).as_u64(), None);
    assert_eq!(json_text("7").as_u64(), None);
    assert_eq!(Json::Null.as_u64(), None);
}

#[test]
fn from_i64_picks_the_sign() {
    assert_eq!(Number::from_i64(0), Number::Unsigned(0));
    assert_eq!(Number::from_i64(12), Number::Unsigned(12));
    assert_eq!(Number::from_i64(-12), Number::Signed(-12));
    assert_eq!(Number::from_i64(i64::MAX), Number::Unsigned(i64::MAX as u64));
    assert_eq!(Number::from_i64(i64::MIN), Number::Signed(i64::MIN));
}

#[test]
fn as_str_reads_strings_only() {
    assert_eq!(json_text("abc").as_str(), Some("abc"));
    assert_eq!(json_text("").as_str(), Some(""));
    assert_eq!(Json::Bool(true).as_str(), None);
    assert_eq!(Json::Array(vec![json_text("a")]).as_str(), None);
}

#[test]
fn get_reads_the_first_member_of_that_name() {
    let object = Json::Object(json_members(vec![
        ("a", json_text("1")),
        ("b", json_text("2")),
        ("a", json_text("3")),
    ]));
    assert_eq!(object.get("a"), Some(&json_text("1")));
    assert_eq!(object.get("b"), Some(&json_text("2")));
    assert_eq!(object.get("c"), None);
    assert_eq!(json_text("a").get("a"), None);
    assert_eq!(Json::Array(vec![]).get("a"), None);
}

#[test]
fn position_finds_the_first_place() {
    let members = json_members(vec![("a", Json::Null), ("b", Json::Null), ("b", Json::Bool(true))]);
    assert_eq!(position(&members, "a"), Some(0));
    assert_eq!(position(&members, "b"), Some(1));
    assert_eq!(position(&members, "z"), None);
    assert_eq!(position(&Vec::new(), "a"), None);
}

#[test]
fn take_removes_the_first_member_of_that_name() {
    let mut members = json_members(vec![
        ("a", json_text("1")),
        ("b", json_text("2")),
        ("a", json_text("3")),
    ]);
    assert_eq!(take(&mut members, "a"), Some(json_text("1")));
    assert_eq!(members, json_members(vec![("b", json_text("2")), ("a", json_text("3"))]));
    assert_eq!(take(&mut members, "zz"), None);
    assert_eq!(members, json_members(vec![("b", json_text("2")), ("a", json_text("3"))]));
}

#[test]
fn put_replaces_in_place_or_appends() {
    let mut members = json_members(vec![("a", json_text("1")), ("b", json_text("2"))]);
    put(&mut members, "a".to_string(), json_text("9"));
    assert_eq!(members, json_members(vec![("a", json_text("9")), ("b", json_text("2"))]));
    put(&mut members, "c".to_string(), Json::Null);
    assert_eq!(
        members,
        json_members(vec![("a", json_text("9")), ("b", json_text("2")), ("c", Json::Null)])
    );
}

#[test]
fn duplicate_copies_the_whole_value() {
    let value = Json::Object(json_members(vec![
        ("list", Json::Array(vec![Json::Null, Json::Bool(false), json_text("x")])),
        (
            "nested",
            Json::Object(json_members(vec![("n", Json::Number(Number::Signed(-4)))])),
        ),
    ]));
    assert_eq!(value.duplicate(), value);
}

#[test]
fn constructors_wrap_their_parts() {
    assert_eq!(Json::text("hi"), json_text("hi"));
    assert_eq!(Json::array(vec![Json::Null]), Json::Array(vec![Json::Null]));
    assert_eq!(
        Json::object(json_members(vec![("k", Json::Null)])),
        Json::Object(json_members(vec![("k", Json::Null)]))
    );
}

#[test]
fn text_at_reads_string_members() {
    let object = Json::Object(json_members(vec![
        ("name", json_text("s")),
        ("count", Json::Number(Number::Unsigned(2))),
    ]));
    assert_eq!(object.text_at("name"), Some("s".to_string()));
    assert_eq!(object.text_at("count"), None);
    assert_eq!(object.text_at("missing"), None);
    assert_eq!(json_text("name").text_at("name"), None);
}

#[test]
fn take_all_removes_every_member_of_that_name() {
    let members = json_members(vec![
        ("a", json_text("1")),
        ("b", json_text("2")),
        ("a", json_text("3")),
        ("c", json_text("4")),
    ]);
    let (left, first) = take_all(members, "a");
    assert_eq!(left, json_members(vec![("b", json_text("2")), ("c", json_text("4"))]));
    assert_eq!(first, Some(json_text("1")));

    let (left, first) = take_all(json_members(vec![("b", Json::Null)]), "a");
    assert_eq!(left, json_members(vec![("b", Json::Null)]));
    assert_eq!(first, None);

    let (left, first) = take_all(Vec::new(), "a");
    assert_eq!(left, Vec::new());
    assert_eq!(first, None);
}
