use conduwuit_core::ids::{valid_server_name, valid_user_id};
use conduwuit_core::room_version::{version_supported, RoomVersion};
use conduwuit_core::text::{contains_string, decimal_string, server_name_of};

#[test]
fn decimal_of_timestamp() {
    assert_eq!(decimal_string(0), "0");
    assert_eq!(decimal_string(9), "9");
    assert_eq!(decimal_string(10), "10");
    assert_eq!(decimal_string(1_000_000), "1000000");
    assert_eq!(decimal_string(u64::MAX), "18446744073709551615");
}

#[test]
fn server_name_follows_first_colon() {
    assert_eq!(server_name_of("@alice:example.org"), Some("example.org".to_owned()));
    assert_eq!(server_name_of("!room:example.org:8448"), Some("example.org:8448".to_owned()));
    assert_eq!(server_name_of("$eventhash"), None);
    assert_eq!(server_name_of("@alice:"), Some(String::new()));
}

#[test]
fn server_name_of_non_ascii_id() {
    assert_eq!(server_name_of("@\u{e4}\u{f6}:b\u{fc}cher.example"), Some("b\u{fc}cher.example".to_owned()));
}

#[test]
fn contains_string_finds_exact_match_only() {
    let list = vec!["a.example".to_owned(), "b.example".to_owned()];
    assert!(contains_string(&list, &"b.example".to_owned()));
    assert!(!contains_string(&list, &"b.exampl".to_owned()));
    assert!(!contains_string(&Vec::new(), &"a.example".to_owned()));
}

#[test]
fn user_ids_are_checked_by_grammar() {
    assert!(valid_user_id("@alice:example.org"));
    assert!(!valid_user_id("alice:example.org"));
    assert!(!valid_user_id("@alice"));
    assert!(!valid_user_id(""));
}

#[test]
fn server_names_are_checked_by_grammar() {
    assert!(valid_server_name("example.org"));
    assert!(valid_server_name("example.org:8448"));
    assert!(!valid_server_name("exa mple.org"));
    assert!(!valid_server_name(""));
}

#[test]
fn room_versions_parse_and_print() {
    let all = [
        (RoomVersion::V1, "1", 1),
        (RoomVersion::V2, "2", 2),
        (RoomVersion::V3, "3", 3),
        (RoomVersion::V4, "4", 4),
        (RoomVersion::V5, "5", 5),
        (RoomVersion::V6, "6", 6),
        (RoomVersion::V7, "7", 7),
        (RoomVersion::V8, "8", 8),
        (RoomVersion::V9, "9", 9),
        (RoomVersion::V10, "10", 10),
        (RoomVersion::V11, "11", 11),
    ];
    for (version, text, number) in all {
        assert_eq!(RoomVersion::parse(text), Some(version));
        assert_eq!(version.as_str(), text);
        assert_eq!(version.number(), number);
    }
    assert_eq!(RoomVersion::parse("12"), None);
    assert_eq!(RoomVersion::parse(""), None);
    assert_eq!(RoomVersion::parse("org.example.custom"), None);
}

#[test]
fn event_id_is_in_band_only_in_versions_one_and_two() {
    assert!(RoomVersion::V1.event_id_in_band());
    assert!(RoomVersion::V2.event_id_in_band());
    assert!(!RoomVersion::V3.event_id_in_band());
    assert!(!RoomVersion::V11.event_id_in_band());
}

#[test]
fn restricted_joins_begin_with_version_eight() {
    assert!(!RoomVersion::V7.has_restricted_joins());
    assert!(RoomVersion::V8.has_restricted_joins());
    assert!(RoomVersion::V11.has_restricted_joins());
}

#[test]
fn supported_versions_are_looked_up() {
    let supported = vec![RoomVersion::V6, RoomVersion::V10];
    assert!(version_supported(&supported, RoomVersion::V10));
    assert!(!version_supported(&supported, RoomVersion::V9));
}
