use firebase_rest::json::JsonValue;

fn text(s: &str) -> JsonValue {
    JsonValue::String(s.to_string())
}

fn object(members: Vec<(&str, JsonValue)>) -> JsonValue {
    JsonValue::Object(members.into_iter().map(|(k, v)| (k.to_string(), v)).collect())
}

#[test]
fn get_finds_a_member() {
    let v = object(vec![("a", text("x")), ("b", JsonValue::Bool(true))]);
    assert_eq!(v.get("b"), Some(&JsonValue::Bool(true)));
    assert_eq!(v.get("a"), Some(&text("x")));
    assert_eq!(v.get("c"), None);
}

#[test]
fn get_takes_the_first_of_equal_names() {
    let v = object(vec![("a", text("first")), ("a", text("second"))]);
    assert_eq!(v.get("a"), Some(&text("first")));
}

#[test]
fn get_on_a_non_object_is_none() {
    assert_eq!(text("a").get("a"), None);
    assert_eq!(JsonValue::Array(vec![text("a")]).get("a"), None);
    assert_eq!(JsonValue::Null.get("a"), None);
}

#[test]
fn as_str_and_as_array() {
    assert_eq!(text("x").as_str(), Some(&"x".to_string()));
    assert_eq!(JsonValue::Null.as_str(), None);
    let arr = JsonValue::Array(vec![JsonValue::Null]);
    assert_eq!(arr.as_array(), Some(&vec![JsonValue::Null]));
    assert_eq!(text("x").as_array(), None);
}

#[test]
fn duplicate_and_clone_are_equal() {
    let v = object(vec![
        ("n", JsonValue::Number("1.5".to_string())),
        ("a", JsonValue::Array(vec![JsonValue::Null, object(vec![("k", JsonValue::Bool(false))])])),
    ]);
    assert_eq!(v.duplicate(), v);
    assert_eq!(v.clone(), v);
}
