use duihua::json::{Json, JsonObject};

#[test]
fn objects_keep_one_value_per_key() {
    let mut o = JsonObject::new();
    o.insert("a".to_string(), Json::Bool(true));
    o.insert("b".to_string(), Json::Null);
    o.insert("a".to_string(), Json::Bool(false));
    assert_eq!(o.get("a"), Some(&Json::Bool(false)));
    assert!(o.contains_key("b"));
    assert_eq!(o.remove("b"), Some(Json::Null));
    assert_eq!(o.remove("b"), None);
    assert!(!o.contains_key("b"));
    assert_eq!(o.into_members(), vec![("a".to_string(), Json::Bool(false))]);
}

#[test]
fn later_members_win() {
    let o = JsonObject::from_members(vec![
        ("k".to_string(), Json::Str("first".to_string())),
        ("k".to_string(), Json::Str("second".to_string())),
    ]);
    assert_eq!(o.get("k"), Some(&Json::Str("second".to_string())));
    assert_eq!(o.into_members().len(), 1);
}

#[test]
fn null_becomes_an_object_when_written() {
    let v = Json::Null.with_field("x".to_string(), Json::Number("1.5".to_string()));
    assert_eq!(v.get("x"), Some(&Json::Number("1.5".to_string())));
    assert!(v.is_indexable());
    assert!(!Json::Array(vec![]).is_indexable());
    assert_eq!(Json::Array(vec![]).get("x"), None);
    assert_eq!(Json::text("s").as_str(), Some("s"));
    assert_eq!(Json::Bool(true).as_str(), None);
}

