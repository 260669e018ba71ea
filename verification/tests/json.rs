use conduwuit_core::json::{has_member, JsonObject};

#[test]
fn parse_reads_members_as_canonical_text() {
    let object = JsonObject::parse(r#"{ "b": [1, 2], "a": {"y": "z", "x": null}, "c": "text" }"#).unwrap();
    assert_eq!(object.get("a"), Some(r#"{"x":null,"y":"z"}"#.to_owned()));
    assert_eq!(object.get("b"), Some("[1,2]".to_owned()));
    assert_eq!(object.get("c"), Some(r#""text""#.to_owned()));
    assert_eq!(object.get("d"), None);
    assert!(object.contains_key("a"));
    assert!(!object.contains_key("d"));
}

#[test]
fn parse_refuses_what_is_no_canonical_object() {
    assert!(JsonObject::parse("[]").is_none());
    assert!(JsonObject::parse("not json").is_none());
    assert!(JsonObject::parse(r#"{"a": 1.5}"#).is_none());
    assert!(JsonObject::parse("").is_none());
}

#[test]
fn to_text_writes_members_sorted() {
    let mut object = JsonObject::new();
    object.insert("b", "2".to_owned());
    object.insert("a", "1".to_owned());
    object.insert_string("c", "say \"hi\"");
    assert_eq!(object.to_text(), Some(r#"{"a":1,"b":2,"c":"say \"hi\""}"#.to_owned()));
}

#[test]
fn to_text_fails_on_a_value_that_is_no_json() {
    let mut object = JsonObject::new();
    object.insert("a", "{".to_owned());
    assert_eq!(object.to_text(), None);
}

#[test]
fn insert_replaces_and_remove_removes() {
    let mut object = JsonObject::parse(r#"{"a":1,"b":2}"#).unwrap();
    object.insert("a", "3".to_owned());
    assert_eq!(object.get("a"), Some("3".to_owned()));
    object.remove("b");
    assert_eq!(object.get("b"), None);
    object.remove("missing");
    assert_eq!(object.to_text(), Some(r#"{"a":3}"#.to_owned()));
}

#[test]
fn get_string_reads_only_strings() {
    let object = JsonObject::parse(r#"{"s":"a\nb","n":1,"o":{}}"#).unwrap();
    assert_eq!(object.get_string("s"), Some("a\nb".to_owned()));
    assert_eq!(object.get_string("n"), None);
    assert_eq!(object.get_string("o"), None);
    assert_eq!(object.get_string("missing"), None);
}

#[test]
fn insert_string_quotes_the_value() {
    let mut object = JsonObject::new();
    object.insert_string("origin", "example.org");
    assert_eq!(object.get("origin"), Some(r#""example.org""#.to_owned()));
    assert_eq!(object.get_string("origin"), Some("example.org".to_owned()));
}

#[test]
fn duplicate_copies_every_member() {
    let object = JsonObject::parse(r#"{"a":1,"b":"x","c":[true]}"#).unwrap();
    let copy = object.duplicate();
    assert_eq!(copy.to_text(), object.to_text());
    assert_eq!(copy.get("c"), Some("[true]".to_owned()));
}

#[test]
fn has_member_looks_into_any_json() {
    assert!(has_member(r#"{"redacted_because":{},"age":1.5}"#, "redacted_because"));
    assert!(!has_member(r#"{"age":1}"#, "redacted_because"));
    assert!(!has_member("[1,2]", "redacted_because"));
    assert!(!has_member("no json", "redacted_because"));
}
