use base64::engine::general_purpose::STANDARD_NO_PAD;
use base64::Engine;
use conduwuit_core::error::{Error, ErrorKind};
use conduwuit_core::json::JsonObject;
use conduwuit_core::membership::content::{MembershipState, Profile};
use conduwuit_core::membership::join::{accept_restricted_join, AllowRule, JoinRule, LocalMember};
use conduwuit_core::membership::local_join::{
    LocalJoin, LocalJoinAction, LocalJoinEvent, LocalPhase,
};
use conduwuit_core::membership::remote_join::JoinContext;
use conduwuit_core::room_version::RoomVersion;
use conduwuit_core::signing::{hash_and_sign_event, SigningKey};

const PKCS8: &str = "MFECAQEwBQYDK2VwBCIEINjozvdfbsGEt6DD+7Uf4PiJ/YvTNXV2mIPc/tA0T+6tgSEA3TPraTczVkDPTRaX4K+AfUuyx7Mzq1UafTXypnl0t2k";

fn key() -> SigningKey {
    SigningKey { document: STANDARD_NO_PAD.decode(PKCS8).unwrap(), version: "1".to_owned() }
}

fn context(servers: &[&str]) -> JoinContext {
    JoinContext {
        server_name: "x.example".to_owned(),
        key: key(),
        supported: vec![RoomVersion::V9, RoomVersion::V10],
        servers: servers.iter().map(|s| (*s).to_owned()).collect(),
        profile: Profile { displayname: Some("U".to_owned()), avatar_url: None, blurhash: None },
        reason: None,
    }
}

fn restricted() -> Option<JoinRule> {
    Some(JoinRule::Restricted(vec![AllowRule::RoomMembership("!allowed:x.example".to_owned())]))
}

fn members() -> Vec<LocalMember> {
    vec![
        LocalMember { user_id: "@a:x.example".to_owned(), can_invite: false },
        LocalMember { user_id: "@m:x.example".to_owned(), can_invite: true },
    ]
}

fn append_error() -> Error {
    Error::new(ErrorKind::Forbidden, "Event is not authorized")
}

const STUB: &str = r#"{"auth_events":[],"content":{"join_authorised_via_users_server":"@m:y.example","membership":"join"},"depth":5,"origin_server_ts":1,"prev_events":[],"room_id":"!b:y.example","sender":"@u:x.example","state_key":"@u:x.example","type":"m.room.member"}"#;

fn failure(action: LocalJoinAction) -> (ErrorKind, String) {
    match action {
        LocalJoinAction::Fail(e) => (e.kind, e.message),
        other => panic!("expected a failure, got {:?}", other),
    }
}

#[test]
fn public_room_is_joined_by_appending() {
    let ctx = context(&[]);
    let (mut join, action) = LocalJoin::start(&ctx, &Some(JoinRule::Public), &Vec::new(), &members());
    match action {
        LocalJoinAction::Append(content) => {
            assert_eq!(content.membership, MembershipState::Join);
            assert_eq!(content.displayname.as_deref(), Some("U"));
            assert_eq!(content.join_authorized_via_users_server, None);
        },
        other => panic!("expected an append, got {:?}", other),
    }
    assert!(!join.restricted);
    assert!(join.event_expected(&LocalJoinEvent::Appended));
    assert!(!join.event_expected(&LocalJoinEvent::IncomingHandled));
    assert!(matches!(join.step(&ctx, LocalJoinEvent::Appended), LocalJoinAction::Done));
    assert_eq!(join.phase, LocalPhase::Finished);
}

#[test]
fn restricted_room_names_the_first_member_who_may_invite() {
    let ctx = context(&[]);
    let (join, action) = LocalJoin::start(&ctx, &restricted(), &vec![true], &members());
    assert!(join.restricted);
    match action {
        LocalJoinAction::Append(content) => {
            assert_eq!(content.join_authorized_via_users_server.as_deref(), Some("@m:x.example"))
        },
        other => panic!("expected an append, got {:?}", other),
    }
    let (_, action) = LocalJoin::start(&ctx, &restricted(), &vec![false], &members());
    match action {
        LocalJoinAction::Append(content) => assert_eq!(content.join_authorized_via_users_server, None),
        other => panic!("expected an append, got {:?}", other),
    }
}

#[test]
fn failed_append_in_an_ordinary_room_fails_the_join() {
    let ctx = context(&["y.example"]);
    let (mut join, _) = LocalJoin::start(&ctx, &Some(JoinRule::Invite), &Vec::new(), &Vec::new());
    let action = join.step(&ctx, LocalJoinEvent::AppendFailed { error: append_error() });
    assert_eq!(failure(action), (ErrorKind::Forbidden, "Event is not authorized".to_owned()));
}

#[test]
fn failed_append_in_a_restricted_room_without_other_servers_fails_the_join() {
    let ctx = context(&["x.example"]);
    let (mut join, _) = LocalJoin::start(&ctx, &restricted(), &vec![false], &Vec::new());
    let action = join.step(&ctx, LocalJoinEvent::AppendFailed { error: append_error() });
    assert_eq!(failure(action), (ErrorKind::Forbidden, "Event is not authorized".to_owned()));
}

fn up_to_send_join(ctx: &JoinContext) -> (LocalJoin, String, String) {
    let (mut join, _) = LocalJoin::start(ctx, &restricted(), &vec![false], &Vec::new());
    let action = join.step(ctx, LocalJoinEvent::AppendFailed { error: append_error() });
    assert!(matches!(action, LocalJoinAction::MakeJoin { server: 1 }));
    assert_eq!(join.phase, LocalPhase::Federating);
    let action = join.step(
        ctx,
        LocalJoinEvent::MakeJoinDone { room_version: Some("9".to_owned()), event: STUB.to_owned(), now: 10 },
    );
    match action {
        LocalJoinAction::SendJoin { server: 1, event_id, pdu } => (join, event_id, pdu),
        other => panic!("expected send_join, got {:?}", other),
    }
}

#[test]
fn restricted_join_falls_back_to_federation() {
    let ctx = context(&["x.example", "y.example"]);
    let (mut join, event_id, pdu) = up_to_send_join(&ctx);
    let mut signed = JsonObject::parse(&pdu).unwrap();
    assert!(hash_and_sign_event("y.example", &key(), &mut signed, RoomVersion::V9));
    let action = join.step(&ctx, LocalJoinEvent::SendJoinDone { signed_event: signed.to_text() });
    match action {
        LocalJoinAction::HandleIncoming { server, event_id: id, event } => {
            assert_eq!(server, 1);
            assert_eq!(id, event_id);
            let signatures = JsonObject::parse(&event.get("signatures").unwrap()).unwrap();
            assert!(signatures.contains_key("y.example"));
            assert!(signatures.contains_key("x.example"));
        },
        other => panic!("expected the event to be handled, got {:?}", other),
    }
    assert_eq!(join.phase, LocalPhase::Handling);
    assert!(matches!(join.step(&ctx, LocalJoinEvent::IncomingHandled), LocalJoinAction::Done));
}

#[test]
fn fallback_without_a_signed_event_fails_as_the_append_did() {
    let ctx = context(&["x.example", "y.example"]);
    let (mut join, _, _) = up_to_send_join(&ctx);
    let action = join.step(&ctx, LocalJoinEvent::SendJoinDone { signed_event: None });
    assert_eq!(failure(action), (ErrorKind::Forbidden, "Event is not authorized".to_owned()));
}

#[test]
fn fallback_with_another_event_is_refused() {
    let ctx = context(&["x.example", "y.example"]);
    let (mut join, _, _) = up_to_send_join(&ctx);
    let other = r#"{"content":{},"origin_server_ts":4,"room_id":"!b:y.example","sender":"@m:y.example","type":"X"}"#;
    let action = join.step(&ctx, LocalJoinEvent::SendJoinDone { signed_event: Some(other.to_owned()) });
    assert_eq!(failure(action), (ErrorKind::BadServerResponse, "Server sent event with wrong event id".to_owned()));

    let (mut join, _, _) = up_to_send_join(&ctx);
    let action = join.step(&ctx, LocalJoinEvent::SendJoinDone { signed_event: Some("{".to_owned()) });
    assert_eq!(
        failure(action),
        (ErrorKind::BadServerResponse, "Could not convert event to canonical json.".to_owned())
    );
}

#[test]
fn fallback_passes_failures_on() {
    let ctx = context(&["x.example", "y.example"]);
    let (mut join, _) = LocalJoin::start(&ctx, &restricted(), &vec![false], &Vec::new());
    join.step(&ctx, LocalJoinEvent::AppendFailed { error: append_error() });
    let action = join.step(
        &ctx,
        LocalJoinEvent::MakeJoinFailed {
            code: "M_UNKNOWN".to_owned(),
            error: Error::new(ErrorKind::BadServerResponse, "unreachable"),
        },
    );
    assert_eq!(failure(action), (ErrorKind::BadServerResponse, "unreachable".to_owned()));

    let (mut join, _, _) = up_to_send_join(&ctx);
    let action =
        join.step(&ctx, LocalJoinEvent::SendJoinFailed { error: Error::new(ErrorKind::BadServerResponse, "timeout") });
    assert_eq!(failure(action), (ErrorKind::BadServerResponse, "timeout".to_owned()));

    let (mut join, _, pdu) = up_to_send_join(&ctx);
    join.step(&ctx, LocalJoinEvent::SendJoinDone { signed_event: Some(pdu) });
    let action = join.step(&ctx, LocalJoinEvent::IncomingFailed { error: Error::new(ErrorKind::Forbidden, "no") });
    assert_eq!(failure(action), (ErrorKind::Forbidden, "no".to_owned()));
}

#[test]
fn signed_join_must_have_the_id_of_the_submitted_event() {
    let text = r#"{"content":{},"origin_server_ts":4,"room_id":"!b:y.example","sender":"@m:y.example","type":"X"}"#;
    let id = conduwuit_core::signing::gen_event_id_canonical_json(text, RoomVersion::V10).unwrap().0;
    let (got, event) =
        accept_restricted_join(&Some(text.to_owned()), &id, RoomVersion::V10, append_error()).unwrap();
    assert_eq!(got, id);
    assert_eq!(event.to_text(), Some(text.to_owned()));
    let error = accept_restricted_join(&Some(text.to_owned()), "$other", RoomVersion::V10, append_error()).unwrap_err();
    assert_eq!(error.kind, ErrorKind::BadServerResponse);
    let error = accept_restricted_join(&None, &id, RoomVersion::V10, append_error()).unwrap_err();
    assert_eq!(error.message, "Event is not authorized");
}
