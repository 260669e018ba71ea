use conduwuit_core::error::ErrorKind;
use conduwuit_core::json::JsonObject;
use conduwuit_core::sending::edu::{
    select_edus, select_edus_presence, select_edus_receipts, user_is_local, PresenceItem,
    PresenceRow, ReceiptEvent, ReceiptRow, RoomEdus,
};

fn receipt(user: &str, count: u64, event: &str) -> ReceiptRow {
    ReceiptRow {
        user_id: user.to_owned(),
        count,
        event: ReceiptEvent::Read { event_id: event.to_owned(), receipt: r#"{"ts":1000}"#.to_owned() },
    }
}

fn presence(user: &str, count: u64) -> PresenceRow {
    PresenceRow {
        user_id: user.to_owned(),
        count,
        visible: Some(true),
        presence: Some(PresenceItem {
            presence: "online".to_owned(),
            currently_active: None,
            last_active_ago: None,
            status_msg: Some("here".to_owned()),
        }),
    }
}

fn edu_type(edu: &[u8]) -> String {
    let text = String::from_utf8(edu.to_vec()).unwrap();
    JsonObject::parse(&text).unwrap().get_string("edu_type").unwrap()
}

#[test]
fn local_users_are_those_of_this_server() {
    assert!(user_is_local("@a:x.example", "x.example"));
    assert!(!user_is_local("@a:y.example", "x.example"));
    assert!(!user_is_local("@a:x.example:8448", "x.example"));
    assert!(!user_is_local("nocolon", "x.example"));
}

#[test]
fn receipt_of_a_local_user_becomes_a_federation_receipt() {
    let rows = vec![receipt("@a:x.example", 7, "$event1")];
    let mut max = 3;
    let mut events = Vec::new();
    let more = select_edus_receipts("!r:x.example", &rows, "x.example", &mut max, &mut events).unwrap();
    assert!(more);
    assert_eq!(max, 7);
    assert_eq!(events.len(), 1);
    let text = String::from_utf8(events[0].clone()).unwrap();
    assert_eq!(
        text,
        r#"{"edu_type":"m.receipt","content":{"!r:x.example":{"m.read":{"@a:x.example":{"data":{"ts":1000},"event_ids":["$event1"]}}}}}"#
    );
}

#[test]
fn receipts_of_remote_users_only_move_the_count() {
    let rows = vec![receipt("@a:y.example", 9, "$e1"), receipt("@b:x.example", 4, "$e2")];
    let mut max = 5;
    let mut events = Vec::new();
    assert_eq!(
        select_edus_receipts("!r:x.example", &rows, "x.example", &mut max, &mut events).map_err(|e| e.kind),
        Ok(true)
    );
    assert_eq!(max, 9);
    assert_eq!(events.len(), 1);
}

#[test]
fn other_ephemeral_events_are_passed_over() {
    let rows = vec![ReceiptRow { user_id: "@a:x.example".to_owned(), count: 2, event: ReceiptEvent::Other }];
    let mut max = 0;
    let mut events = Vec::new();
    assert!(select_edus_receipts("!r:x.example", &rows, "x.example", &mut max, &mut events).unwrap());
    assert!(events.is_empty());
    assert_eq!(max, 2);
}

#[test]
fn an_unreadable_receipt_fails_the_selection() {
    let rows = vec![
        receipt("@a:x.example", 1, "$e1"),
        ReceiptRow { user_id: "@a:x.example".to_owned(), count: 2, event: ReceiptEvent::Invalid },
        receipt("@a:x.example", 3, "$e3"),
    ];
    let mut max = 0;
    let mut events = Vec::new();
    let error = select_edus_receipts("!r:x.example", &rows, "x.example", &mut max, &mut events).unwrap_err();
    assert_eq!(error.kind, ErrorKind::Database);
    assert_eq!(error.message, "Invalid edu event in read_receipts.");
}

#[test]
fn a_receipt_with_malformed_data_fails_the_selection() {
    let rows = vec![ReceiptRow {
        user_id: "@a:x.example".to_owned(),
        count: 2,
        event: ReceiptEvent::Read { event_id: "$e".to_owned(), receipt: "[]".to_owned() },
    }];
    let mut max = 0;
    let mut events = Vec::new();
    assert!(select_edus_receipts("!r:x.example", &rows, "x.example", &mut max, &mut events).is_err());
}

#[test]
fn receipts_stop_at_sixteen() {
    let rows: Vec<ReceiptRow> = (0..20).map(|i| receipt("@a:x.example", i + 1, &format!("$e{}", i))).collect();
    let mut max = 0;
    let mut events = Vec::new();
    let more = select_edus_receipts("!r:x.example", &rows, "x.example", &mut max, &mut events).unwrap();
    assert!(!more);
    assert_eq!(events.len(), 16);
    assert_eq!(max, 16);
}

#[test]
fn presence_bundle_holds_local_visible_users() {
    let mut hidden = presence("@c:x.example", 30);
    hidden.visible = Some(false);
    let rows = vec![presence("@a:x.example", 10), presence("@b:y.example", 20), hidden];
    let mut max = 0;
    let mut events = Vec::new();
    assert!(select_edus_presence(&rows, "x.example", &mut max, &mut events).unwrap());
    assert_eq!(max, 30);
    assert_eq!(events.len(), 1);
    let text = String::from_utf8(events[0].clone()).unwrap();
    assert_eq!(
        text,
        r#"{"edu_type":"m.presence","content":{"push":[{"user_id":"@a:x.example","presence":"online","status_msg":"here","last_active_ago":0,"currently_active":false}]}}"#
    );
}

#[test]
fn presence_bundle_is_sent_even_when_empty() {
    let mut max = 4;
    let mut events = Vec::new();
    assert!(select_edus_presence(&Vec::new(), "x.example", &mut max, &mut events).unwrap());
    assert_eq!(max, 4);
    assert_eq!(String::from_utf8(events[0].clone()).unwrap(), r#"{"edu_type":"m.presence","content":{"push":[]}}"#);
}

#[test]
fn presence_bundle_holds_sixteen_updates_at_most() {
    let rows: Vec<PresenceRow> = (0..20).map(|i| presence(&format!("@u{}:x.example", i), i + 1)).collect();
    let mut max = 0;
    let mut events = Vec::new();
    assert!(select_edus_presence(&rows, "x.example", &mut max, &mut events).unwrap());
    assert_eq!(max, 16);
    let text = String::from_utf8(events[0].clone()).unwrap();
    assert_eq!(text.matches("\"user_id\"").count(), 16);
}

#[test]
fn unreadable_presence_fails_the_selection() {
    let mut row = presence("@a:x.example", 1);
    row.presence = None;
    let mut max = 0;
    let mut events = Vec::new();
    let error = select_edus_presence(&vec![row], "x.example", &mut max, &mut events).unwrap_err();
    assert_eq!(error.kind, ErrorKind::Database);
    let mut row = presence("@a:x.example", 1);
    row.visible = None;
    assert!(select_edus_presence(&vec![row], "x.example", &mut max, &mut events).is_err());
}

#[test]
fn select_edus_orders_receipts_device_lists_presence() {
    let rooms = vec![
        RoomEdus {
            room_id: "!r1:x.example".to_owned(),
            keys_changed: vec!["@a:x.example".to_owned(), "@z:y.example".to_owned()],
            receipts: vec![receipt("@a:x.example", 12, "$e1")],
        },
        RoomEdus {
            room_id: "!r2:x.example".to_owned(),
            keys_changed: vec!["@a:x.example".to_owned(), "@b:x.example".to_owned()],
            receipts: Vec::new(),
        },
    ];
    let (events, count) =
        select_edus(10, &rooms, &vec![presence("@a:x.example", 15)], "x.example", true, true).unwrap();
    let kinds: Vec<String> = events.iter().map(|e| edu_type(e)).collect();
    assert_eq!(kinds, vec!["m.receipt", "m.device_list_update", "m.device_list_update", "m.presence"]);
    assert_eq!(count, 15);
    let first = String::from_utf8(events[1].clone()).unwrap();
    assert_eq!(
        first,
        r#"{"edu_type":"m.device_list_update","content":{"user_id":"@a:x.example","device_id":"placeholder","device_display_name":"Placeholder","stream_id":1}}"#
    );
    assert!(String::from_utf8(events[2].clone()).unwrap().contains("@b:x.example"));
}

#[test]
fn select_edus_respects_the_switches() {
    let rooms = vec![RoomEdus {
        room_id: "!r1:x.example".to_owned(),
        keys_changed: Vec::new(),
        receipts: vec![receipt("@a:x.example", 12, "$e1")],
    }];
    let rows = vec![presence("@a:x.example", 15)];
    let (events, count) = select_edus(10, &rooms, &rows, "x.example", false, false).unwrap();
    assert!(events.is_empty());
    assert_eq!(count, 10);
    let (events, count) = select_edus(10, &rooms, &rows, "x.example", true, false).unwrap();
    assert_eq!(events.len(), 1);
    assert_eq!(count, 12);
}

#[test]
fn select_edus_never_gives_more_than_sixteen() {
    let receipts: Vec<ReceiptRow> = (0..10).map(|i| receipt("@a:x.example", i + 1, &format!("$e{}", i))).collect();
    let users: Vec<String> = (0..10).map(|i| format!("@u{}:x.example", i)).collect();
    let rooms = vec![RoomEdus { room_id: "!r1:x.example".to_owned(), keys_changed: users, receipts }];
    let (events, count) =
        select_edus(0, &rooms, &vec![presence("@a:x.example", 99)], "x.example", true, true).unwrap();
    assert_eq!(events.len(), 16);
    assert_eq!(events.iter().filter(|e| edu_type(e) == "m.receipt").count(), 10);
    assert_eq!(events.iter().filter(|e| edu_type(e) == "m.device_list_update").count(), 6);
    assert_eq!(count, 10);
}

#[test]
fn select_edus_stops_reading_rooms_at_the_limit() {
    let receipts: Vec<ReceiptRow> = (0..16).map(|i| receipt("@a:x.example", i + 1, &format!("$e{}", i))).collect();
    let rooms = vec![
        RoomEdus { room_id: "!r1:x.example".to_owned(), keys_changed: Vec::new(), receipts },
        RoomEdus {
            room_id: "!r2:x.example".to_owned(),
            keys_changed: vec!["@b:x.example".to_owned()],
            receipts: vec![receipt("@a:x.example", 500, "$late")],
        },
    ];
    let (events, count) = select_edus(0, &rooms, &Vec::new(), "x.example", true, true).unwrap();
    assert_eq!(events.len(), 16);
    assert_eq!(count, 16);
}

#[test]
fn select_edus_fails_on_a_malformed_user() {
    let rooms = vec![RoomEdus {
        room_id: "!r1:x.example".to_owned(),
        keys_changed: vec!["not a user:x.example".to_owned()],
        receipts: Vec::new(),
    }];
    let error = select_edus(0, &rooms, &Vec::new(), "x.example", true, true).unwrap_err();
    assert_eq!(error.kind, ErrorKind::Database);
    assert_eq!(error.message, "Invalid user in device list changes.");
}

#[test]
fn failed_selection_names_what_could_not_be_used() {
    let rooms = vec![RoomEdus {
        room_id: "!r1:x.example".to_owned(),
        keys_changed: Vec::new(),
        receipts: vec![ReceiptRow { user_id: "@a:x.example".to_owned(), count: 2, event: ReceiptEvent::Invalid }],
    }];
    let error = select_edus(0, &rooms, &Vec::new(), "x.example", true, true).unwrap_err();
    assert_eq!((error.kind, error.message.as_str()), (ErrorKind::Database, "Invalid edu event in read_receipts."));
    let mut row = presence("@a:x.example", 1);
    row.presence = None;
    let error = select_edus(0, &Vec::new(), &vec![row], "x.example", true, true).unwrap_err();
    assert_eq!((error.kind, error.message.as_str()), (ErrorKind::Database, "Invalid presence in database."));
}
