use conduwuit_core::error::{Error, ErrorKind};
use conduwuit_core::membership::make_join::{
    contains_text, is_incompatible_version, MakeJoin, MakeJoinAction,
};

fn servers(n: usize) -> Vec<String> {
    (0..n).map(|i| format!("s{}.example", i)).collect()
}

fn failure() -> Error {
    Error::new(ErrorKind::BadServerResponse, "remote said no")
}

fn asked(action: &MakeJoinAction) -> Option<usize> {
    match action {
        MakeJoinAction::Ask(i) => Some(*i),
        MakeJoinAction::Fail(_) => None,
    }
}

#[test]
fn text_search_finds_a_part() {
    assert!(contains_text("abcabd", "abd"));
    assert!(contains_text("abc", ""));
    assert!(contains_text("", ""));
    assert!(contains_text("abc", "abc"));
    assert!(!contains_text("abc", "abcd"));
    assert!(!contains_text("ababab", "abb"));
    assert!(!contains_text("", "a"));
}

#[test]
fn incompatible_version_is_read_from_the_error_code() {
    assert!(is_incompatible_version("M_INCOMPATIBLE_ROOM_VERSION"));
    assert!(is_incompatible_version("M_UNSUPPORTED_ROOM_VERSION"));
    assert!(is_incompatible_version("errcode: M_UNSUPPORTED_ROOM_VERSION (400)"));
    assert!(!is_incompatible_version("M_FORBIDDEN"));
    assert!(!is_incompatible_version("M_INCOMPATIBLE_ROOM"));
}

#[test]
fn own_server_is_skipped() {
    let list = vec!["x.example".to_owned(), "y.example".to_owned(), "x.example".to_owned(), "z.example".to_owned()];
    let mut search = MakeJoin::new();
    assert_eq!(asked(&search.advance(&list, "x.example")), Some(1));
    assert_eq!(asked(&search.failed("M_UNKNOWN", failure(), &list, "x.example")), Some(3));
}

#[test]
fn nobody_to_ask_is_no_server_available() {
    let list = vec!["x.example".to_owned()];
    let mut search = MakeJoin::new();
    match search.advance(&list, "x.example") {
        MakeJoinAction::Fail(e) => {
            assert_eq!(e.kind, ErrorKind::BadServerResponse);
            assert_eq!(e.message, "No server available to assist in joining.");
        },
        MakeJoinAction::Ask(_) => panic!("only this server is in the list"),
    }
}

#[test]
fn last_error_is_returned_when_servers_run_out() {
    let list = servers(2);
    let mut search = MakeJoin::new();
    assert_eq!(asked(&search.advance(&list, "x.example")), Some(0));
    assert_eq!(asked(&search.failed("M_UNKNOWN", failure(), &list, "x.example")), Some(1));
    let last = Error::new(ErrorKind::Forbidden, "last word");
    match search.failed("M_FORBIDDEN", last, &list, "x.example") {
        MakeJoinAction::Fail(e) => {
            assert_eq!(e.kind, ErrorKind::Forbidden);
            assert_eq!(e.message, "last word");
        },
        MakeJoinAction::Ask(_) => panic!("no server is left"),
    }
}

#[test]
fn fifteen_incompatible_answers_end_the_search() {
    let list = servers(100);
    let mut search = MakeJoin::new();
    let mut action = search.advance(&list, "x.example");
    for n in 1..=15 {
        assert_eq!(asked(&action), Some(n - 1));
        action = search.failed("M_INCOMPATIBLE_ROOM_VERSION", failure(), &list, "x.example");
        if n < 15 {
            assert!(asked(&action).is_some(), "the search goes on after {} answers", n);
        }
    }
    match action {
        MakeJoinAction::Fail(e) => {
            assert_eq!(e.kind, ErrorKind::BadServerResponse);
            assert_eq!(e.message, "Room version is not supported by Conduwuit");
        },
        MakeJoinAction::Ask(_) => panic!("the fifteenth answer ends the search"),
    }
}

#[test]
fn fifty_failures_end_the_search() {
    let list = servers(100);
    let mut search = MakeJoin::new();
    let mut action = search.advance(&list, "x.example");
    for n in 1..=50 {
        assert_eq!(asked(&action), Some(n - 1));
        action = search.failed("M_UNKNOWN", failure(), &list, "x.example");
        if n < 50 {
            assert!(asked(&action).is_some(), "the search goes on after {} failures", n);
        }
    }
    match action {
        MakeJoinAction::Fail(e) => {
            assert_eq!(e.kind, ErrorKind::BadServerResponse);
            assert_eq!(e.message, "No server available to assist in joining.");
        },
        MakeJoinAction::Ask(_) => panic!("the fiftieth failure ends the search"),
    }
}

#[test]
fn another_failure_ends_a_run_of_incompatible_answers() {
    let list = servers(100);
    let mut search = MakeJoin::new();
    let mut action = search.advance(&list, "x.example");
    for _ in 0..14 {
        action = search.failed("M_INCOMPATIBLE_ROOM_VERSION", failure(), &list, "x.example");
    }
    assert_eq!(search.counters.incompatible, 14);
    action = match action {
        MakeJoinAction::Ask(_) => search.failed("M_UNKNOWN", failure(), &list, "x.example"),
        other => other,
    };
    assert_eq!(search.counters.incompatible, 0);
    assert_eq!(search.counters.attempts, 15);
    for n in 1..=15 {
        assert!(asked(&action).is_some(), "the search goes on before answer {}", n);
        action = search.failed("M_UNSUPPORTED_ROOM_VERSION", failure(), &list, "x.example");
    }
    assert!(matches!(action, MakeJoinAction::Fail(e) if e.message == "Room version is not supported by Conduwuit"));
}

#[test]
fn scattered_incompatible_answers_do_not_end_the_search_early() {
    let list = servers(100);
    let mut search = MakeJoin::new();
    let mut action = search.advance(&list, "x.example");
    let mut total = 0;
    while let MakeJoinAction::Ask(_) = action {
        total += 1;
        let code = if total % 2 == 0 { "M_UNSUPPORTED_ROOM_VERSION" } else { "M_UNKNOWN" };
        action = search.failed(code, failure(), &list, "x.example");
    }
    assert_eq!(total, 50);
    assert!(matches!(action, MakeJoinAction::Fail(e) if e.message == "No server available to assist in joining."));
}
