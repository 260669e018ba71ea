use base64::engine::general_purpose::{STANDARD_NO_PAD, URL_SAFE_NO_PAD};
use base64::Engine;
use conduwuit_core::json::JsonObject;
use conduwuit_core::room_version::RoomVersion;
use conduwuit_core::signing::{
    event_id, event_id_from_hash, gen_event_id_canonical_json, hash_and_sign_event, verify_event,
    version_string, PublicKey, SigningKey,
};
use ruma::signatures::{Ed25519KeyPair, KeyPair};
use sha2::{Digest, Sha256};

const PKCS8: &str = "MFECAQEwBQYDK2VwBCIEINjozvdfbsGEt6DD+7Uf4PiJ/YvTNXV2mIPc/tA0T+6tgSEA3TPraTczVkDPTRaX4K+AfUuyx7Mzq1UafTXypnl0t2k";

const EVENT: &str = r#"{
    "room_id": "!x:domain",
    "sender": "@a:domain",
    "origin": "domain",
    "origin_server_ts": 1000000,
    "signatures": {},
    "hashes": {},
    "type": "X",
    "content": {},
    "prev_events": [],
    "auth_events": [],
    "depth": 3,
    "unsigned": {
        "age_ts": 1000000
    }
}"#;

fn key() -> SigningKey {
    SigningKey { document: STANDARD_NO_PAD.decode(PKCS8).unwrap(), version: "1".to_owned() }
}

fn public_key(server: &str) -> PublicKey {
    let pair = Ed25519KeyPair::from_der(&key().document, "1".to_owned()).unwrap();
    PublicKey {
        server: server.to_owned(),
        key_id: "ed25519:1".to_owned(),
        key: STANDARD_NO_PAD.encode(pair.public_key()),
    }
}

#[test]
fn signing_adds_the_known_hash_and_signature() {
    let mut event = JsonObject::parse(EVENT).unwrap();
    assert!(hash_and_sign_event("domain", &key(), &mut event, RoomVersion::V1));
    assert_eq!(
        event.get("hashes"),
        Some(r#"{"sha256":"5jM4wQpv6lnBo7CLIghJuHdW+s2CMBJPUOGOC89ncos"}"#.to_owned())
    );
    assert_eq!(
        event.get("signatures"),
        Some(
            r#"{"domain":{"ed25519:1":"PxOFMn6ORll8PFSQp0IRF6037MEZt3Mfzu/ROiT/gb/ccs1G+f6Ddoswez4KntLPBI3GKCGIkhctiK37JOy2Aw"}}"#
                .to_owned()
        )
    );
    assert_eq!(event.get("depth"), Some("3".to_owned()));
    assert_eq!(event.get("unsigned"), Some(r#"{"age_ts":1000000}"#.to_owned()));
}

#[test]
fn signing_fails_without_a_type_and_leaves_the_event() {
    let mut event = JsonObject::parse(r#"{"content":{},"sender":"@a:domain"}"#).unwrap();
    assert!(!hash_and_sign_event("domain", &key(), &mut event, RoomVersion::V10));
    assert_eq!(event.to_text(), Some(r#"{"content":{},"sender":"@a:domain"}"#.to_owned()));
}

#[test]
fn signing_fails_with_a_broken_key() {
    let mut event = JsonObject::parse(EVENT).unwrap();
    let broken = SigningKey { document: vec![1, 2, 3], version: "1".to_owned() };
    assert!(!hash_and_sign_event("domain", &broken, &mut event, RoomVersion::V10));
    assert_eq!(event.get("hashes"), Some("{}".to_owned()));
}

#[test]
fn event_id_is_dollar_and_base64_of_the_sha256_of_the_canonical_event() {
    let canonical = r#"{"content":{},"origin_server_ts":1,"room_id":"!r:x","sender":"@a:x","type":"X"}"#;
    let mut event = JsonObject::parse(canonical).unwrap();
    event.insert("signatures", r#"{"x":{"ed25519:1":"abc"}}"#.to_owned());
    event.insert("unsigned", r#"{"age":5}"#.to_owned());
    let digest = Sha256::digest(canonical.as_bytes());
    assert_eq!(event_id(&event, RoomVersion::V10), Some(format!("${}", URL_SAFE_NO_PAD.encode(digest))));
    assert_eq!(event_id(&event, RoomVersion::V4), Some(format!("${}", URL_SAFE_NO_PAD.encode(digest))));
    assert_eq!(event_id(&event, RoomVersion::V3), Some(format!("${}", STANDARD_NO_PAD.encode(digest))));
}

#[test]
fn event_id_covers_the_redacted_event_only() {
    let mut event = JsonObject::parse(
        r#"{"content":{"body":"hello"},"origin_server_ts":1,"room_id":"!r:x","sender":"@a:x","type":"m.room.message"}"#,
    )
    .unwrap();
    let first = event_id(&event, RoomVersion::V10).unwrap();
    event.insert("content", r#"{"body":"changed"}"#.to_owned());
    assert_eq!(event_id(&event, RoomVersion::V10), Some(first.clone()));
    event.insert("origin_server_ts", "2".to_owned());
    assert_ne!(event_id(&event, RoomVersion::V10), Some(first));
}

#[test]
fn event_without_a_type_has_no_id() {
    let event = JsonObject::parse(r#"{"content":{}}"#).unwrap();
    assert_eq!(event_id(&event, RoomVersion::V10), None);
}

#[test]
fn event_id_from_hash_prepends_a_dollar() {
    assert_eq!(event_id_from_hash("abc"), "$abc");
    assert_eq!(event_id_from_hash(""), "$");
}

#[test]
fn version_strings() {
    assert_eq!(version_string(RoomVersion::V1), "1");
    assert_eq!(version_string(RoomVersion::V10), "10");
    assert_eq!(version_string(RoomVersion::V11), "11");
}

#[test]
fn signed_event_verifies_under_the_right_key() {
    let mut event = JsonObject::parse(EVENT).unwrap();
    assert!(hash_and_sign_event("domain", &key(), &mut event, RoomVersion::V6));
    assert!(verify_event(&vec![public_key("domain")], &event, RoomVersion::V6));
}

#[test]
fn verification_fails_for_missing_wrong_or_foreign_keys() {
    let mut event = JsonObject::parse(EVENT).unwrap();
    assert!(hash_and_sign_event("domain", &key(), &mut event, RoomVersion::V6));
    assert!(!verify_event(&Vec::new(), &event, RoomVersion::V6));
    assert!(!verify_event(&vec![public_key("other")], &event, RoomVersion::V6));
    let mut wrong = public_key("domain");
    wrong.key = STANDARD_NO_PAD.encode([7u8; 32]);
    assert!(!verify_event(&vec![wrong], &event, RoomVersion::V6));
    let mut malformed = public_key("domain");
    malformed.key = "***".to_owned();
    assert!(!verify_event(&vec![malformed], &event, RoomVersion::V6));
}

#[test]
fn verification_fails_for_a_changed_event() {
    let mut event = JsonObject::parse(EVENT).unwrap();
    assert!(hash_and_sign_event("domain", &key(), &mut event, RoomVersion::V6));
    event.insert("depth", "4".to_owned());
    assert!(!verify_event(&vec![public_key("domain")], &event, RoomVersion::V6));
}

#[test]
fn unsigned_event_does_not_verify() {
    let event = JsonObject::parse(EVENT).unwrap();
    assert!(!verify_event(&vec![public_key("domain")], &event, RoomVersion::V6));
}

#[test]
fn received_event_gets_its_id_and_stays_as_it_was() {
    let text = r#"{"content":{},"origin_server_ts":1,"room_id":"!r:x","sender":"@a:x","type":"X"}"#;
    let (id, event) = gen_event_id_canonical_json(text, RoomVersion::V10).unwrap();
    let digest = Sha256::digest(text.as_bytes());
    assert_eq!(id, format!("${}", URL_SAFE_NO_PAD.encode(digest)));
    assert_eq!(event.to_text(), Some(text.to_owned()));
    assert!(!event.contains_key("event_id"));
    assert!(gen_event_id_canonical_json("[]", RoomVersion::V10).is_none());
    assert!(gen_event_id_canonical_json(r#"{"content":{}}"#, RoomVersion::V10).is_none());
}

#[test]
fn received_event_of_an_old_room_carries_its_id() {
    let text = r#"{"content":{},"event_id":"$143273582443PhrSn:y.example","origin_server_ts":1,"room_id":"!r:y.example","sender":"@a:y.example","type":"X"}"#;
    let (id, event) = gen_event_id_canonical_json(text, RoomVersion::V1).unwrap();
    assert_eq!(id, "$143273582443PhrSn:y.example");
    assert_eq!(event.to_text(), Some(text.to_owned()));
    let (id, _) = gen_event_id_canonical_json(text, RoomVersion::V2).unwrap();
    assert_eq!(id, "$143273582443PhrSn:y.example");
    let (id, _) = gen_event_id_canonical_json(text, RoomVersion::V3).unwrap();
    assert_ne!(id, "$143273582443PhrSn:y.example");
    let without = r#"{"content":{},"origin_server_ts":1,"room_id":"!r:y.example","sender":"@a:y.example","type":"X"}"#;
    assert!(gen_event_id_canonical_json(without, RoomVersion::V1).is_none());
}
