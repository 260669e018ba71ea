//! Hashing, signing and verifying events, and the derivation of event ids.
//!
//! The cryptography is the signature library's. What this module adds is
//! where its results go: which members of an event they become, and how an
//! event id is made from a reference hash.

use crate::json::{json_object_of, member_string, JsonObject};
use crate::room_version::{version_named, RoomVersion};
use crate::text::opt_view;
use ruma::serde::Base64;
use ruma::signatures::{Ed25519KeyPair, PublicKeyMap};
use ruma::{CanonicalJsonObject, RoomVersionId};
use vstd::prelude::*;
use vstd::string::*;

verus! {

/// The signing key of this server: a PKCS#8 document and the key's version.
pub struct SigningKey {
    pub document: Vec<u8>,
    pub version: String,
}

/// One public key of a server: the server, the key id (`ed25519:1`) and the
/// key in unpadded base64.
#[derive(Debug)]
pub struct PublicKey {
    pub server: String,
    pub key_id: String,
    pub key: String,
}

impl View for PublicKey {
    type V = (Seq<char>, Seq<char>, Seq<char>);

    open spec fn view(&self) -> (Seq<char>, Seq<char>, Seq<char>) {
        (self.server@, self.key_id@, self.key@)
    }
}

/// The views of a list of public keys.
pub open spec fn key_views(keys: Seq<PublicKey>) -> Seq<(Seq<char>, Seq<char>, Seq<char>)> {
    keys.map_values(|k: PublicKey| k@)
}

/// The reference hash of the event with the given members in the given room
/// version, in unpadded base64: the SHA-256 of the canonical JSON of the
/// redacted event without its `signatures` and `unsigned` members. `None`
/// where the event cannot be redacted or is too large.
pub uninterp spec fn reference_hash_of(
    members: Map<Seq<char>, Seq<char>>,
    version: Seq<char>,
) -> Option<Seq<char>>;

/// The JSON texts of the `hashes` and `signatures` members that hashing and
/// signing give to an event. `None` where the key or the event is unusable.
pub uninterp spec fn hashes_and_signatures_of(
    server_name: Seq<char>,
    key_document: Seq<u8>,
    key_version: Seq<char>,
    members: Map<Seq<char>, Seq<char>>,
    version: Seq<char>,
) -> Option<(Seq<char>, Seq<char>)>;

/// Whether the event carries valid signatures of every server that has to
/// sign it, under the given public keys.
pub uninterp spec fn event_verifies(
    keys: Seq<(Seq<char>, Seq<char>, Seq<char>)>,
    members: Map<Seq<char>, Seq<char>>,
    version: Seq<char>,
) -> bool;

/// Calls `ruma::signatures::reference_hash` on the event with the members of
/// `object`. The result is named: that function's result, or nothing where
/// it fails or a member value does not parse. The version must be one of
/// the known ones.
#[verifier::external_body]
fn reference_hash_text(object: &JsonObject, version: &str) -> (r: Option<String>)
    requires
        object.wf(),
        version_named(version@) is Some,
    ensures
        opt_view(r) == reference_hash_of(object@, version@),
{
    let mut canonical = CanonicalJsonObject::new();
    for (k, v) in object.members.entries.iter() {
        canonical.insert(k.clone(), serde_json::from_str(v).ok()?);
    }
    let version = RoomVersionId::try_from(version).ok()?;
    ruma::signatures::reference_hash(&canonical, &version).ok()
}

/// Calls `ruma::signatures::hash_and_sign_event` with the key pair that
/// `ruma::signatures::Ed25519KeyPair::from_der` makes of `key`, and hands
/// back the JSON texts of the `hashes` and `signatures` members that the
/// event then has. The result is named. The version must be one of the
/// known ones.
#[verifier::external_body]
fn hash_and_sign_text(
    server_name: &str,
    key: &SigningKey,
    object: &JsonObject,
    version: &str,
) -> (r: Option<(String, String)>)
    requires
        object.wf(),
        version_named(version@) is Some,
    ensures
        r is Some <==> hashes_and_signatures_of(
            server_name@,
            key.document@,
            key.version@,
            object@,
            version@,
        ) is Some,
        r matches Some(p) ==> Some((p.0@, p.1@)) == hashes_and_signatures_of(
            server_name@,
            key.document@,
            key.version@,
            object@,
            version@,
        ),
{
    let mut canonical = CanonicalJsonObject::new();
    for (k, v) in object.members.entries.iter() {
        canonical.insert(k.clone(), serde_json::from_str(v).ok()?);
    }
    let version = RoomVersionId::try_from(version).ok()?;
    let pair = Ed25519KeyPair::from_der(&key.document, key.version.clone()).ok()?;
    ruma::signatures::hash_and_sign_event(server_name, &pair, &mut canonical, &version).ok()?;
    let hashes = serde_json::to_string(canonical.get("hashes")?).ok()?;
    let signatures = serde_json::to_string(canonical.get("signatures")?).ok()?;
    Some((hashes, signatures))
}

/// Calls `ruma::signatures::verify_event` on the event with the members of
/// `object`, with a key map made of `keys`. The result is named: whether
/// that function returns `Ok`; a member value or key that does not parse
/// counts as a failure. The version must be one of the known ones.
#[verifier::external_body]
fn verify_event_text(keys: &Vec<PublicKey>, object: &JsonObject, version: &str) -> (r: bool)
    requires
        object.wf(),
        version_named(version@) is Some,
    ensures
        r == event_verifies(key_views(keys@), object@, version@),
{
    let mut canonical = CanonicalJsonObject::new();
    for (k, v) in object.members.entries.iter() {
        let Ok(value) = serde_json::from_str(v) else { return false };
        canonical.insert(k.clone(), value);
    }
    let mut map = PublicKeyMap::new();
    for k in keys.iter() {
        let Ok(key) = Base64::parse(&k.key) else { return false };
        map.entry(k.server.clone()).or_default().insert(k.key_id.clone(), key);
    }
    let Ok(version) = RoomVersionId::try_from(version) else { return false };
    ruma::signatures::verify_event(&map, &canonical, &version).is_ok()
}

/// The event id that belongs to a reference hash: a dollar sign, then the
/// hash.
pub open spec fn event_id_of_hash(hash: Seq<char>) -> Seq<char> {
    seq!['$'].add(hash)
}

/// The event id of an event: a dollar sign before its reference hash.
pub open spec fn event_id_of(members: Map<Seq<char>, Seq<char>>, version: RoomVersion) -> Option<
    Seq<char>,
> {
    match reference_hash_of(members, version_text(version)) {
        Some(hash) => Some(event_id_of_hash(hash)),
        None => None,
    }
}

/// The string of a version, as the signature library takes it.
pub open spec fn version_text(version: RoomVersion) -> Seq<char> {
    match version {
        RoomVersion::V1 => "1"@,
        RoomVersion::V2 => "2"@,
        RoomVersion::V3 => "3"@,
        RoomVersion::V4 => "4"@,
        RoomVersion::V5 => "5"@,
        RoomVersion::V6 => "6"@,
        RoomVersion::V7 => "7"@,
        RoomVersion::V8 => "8"@,
        RoomVersion::V9 => "9"@,
        RoomVersion::V10 => "10"@,
        RoomVersion::V11 => "11"@,
    }
}

/// The string of a version.
pub fn version_string(version: RoomVersion) -> (s: &'static str)
    ensures
        s@ == version_text(version),
        version_named(s@) == Some(version),
{
    let s = version.as_str();
    proof {
        reveal_strlit("1");
        reveal_strlit("2");
        reveal_strlit("3");
        reveal_strlit("4");
        reveal_strlit("5");
        reveal_strlit("6");
        reveal_strlit("7");
        reveal_strlit("8");
        reveal_strlit("9");
        reveal_strlit("10");
        reveal_strlit("11");
        assert("1"@.len() == 1 && "1"@[0] == '1');
        assert("2"@.len() == 1 && "2"@[0] == '2');
        assert("3"@.len() == 1 && "3"@[0] == '3');
        assert("4"@.len() == 1 && "4"@[0] == '4');
        assert("5"@.len() == 1 && "5"@[0] == '5');
        assert("6"@.len() == 1 && "6"@[0] == '6');
        assert("7"@.len() == 1 && "7"@[0] == '7');
        assert("8"@.len() == 1 && "8"@[0] == '8');
        assert("9"@.len() == 1 && "9"@[0] == '9');
        assert("10"@.len() == 2 && "10"@[1] == '0');
        assert("11"@.len() == 2 && "11"@[1] == '1');
    }
    s
}

/// Makes the event id that belongs to a reference hash.
pub fn event_id_from_hash(hash: &str) -> (id: String)
    ensures
        id@ == event_id_of_hash(hash@),
{
    proof {
        reveal_strlit("$");
    }
    let id = "$".to_owned().concat(hash);
    assert(id@ =~= event_id_of_hash(hash@));
    id
}

/// Derives the event id of an event from its reference hash.
pub fn event_id(object: &JsonObject, version: RoomVersion) -> (r: Option<String>)
    requires
        object.wf(),
    ensures
        opt_view(r) == event_id_of(object@, version),
{
    match reference_hash_text(object, version_string(version)) {
        Some(hash) => Some(event_id_from_hash(hash.as_str())),
        None => None,
    }
}

/// The id of an event that was received: in room versions 1 and 2 the id
/// that the event carries as its member `event_id`; from version 3 on the
/// id derived from its reference hash.
pub open spec fn received_event_id_of(members: Map<Seq<char>, Seq<char>>, version: RoomVersion)
    -> Option<Seq<char>> {
    if version.spec_event_id_in_band() {
        member_string(members, "event_id"@)
    } else {
        event_id_of(members, version)
    }
}

/// The id of an event that was received.
pub fn received_event_id(object: &JsonObject, version: RoomVersion) -> (r: Option<String>)
    requires
        object.wf(),
    ensures
        opt_view(r) == received_event_id_of(object@, version),
{
    if version.event_id_in_band() {
        object.get_string("event_id")
    } else {
        event_id(object, version)
    }
}

/// The event after hashing and signing: the same members, with `hashes` and
/// `signatures` replaced by what the signature library made.
pub open spec fn signed_event_of(
    server_name: Seq<char>,
    key: SigningKey,
    members: Map<Seq<char>, Seq<char>>,
    version: RoomVersion,
) -> Option<Map<Seq<char>, Seq<char>>> {
    match hashes_and_signatures_of(
        server_name,
        key.document@,
        key.version@,
        members,
        version_text(version),
    ) {
        Some((hashes, signatures)) => Some(
            members.insert("hashes"@, hashes).insert("signatures"@, signatures),
        ),
        None => None,
    }
}

/// Hashes and signs an event in place. On failure the event is unchanged.
pub fn hash_and_sign_event(
    server_name: &str,
    key: &SigningKey,
    object: &mut JsonObject,
    version: RoomVersion,
) -> (ok: bool)
    requires
        old(object).wf(),
    ensures
        final(object).wf(),
        ok == signed_event_of(server_name@, *key, old(object)@, version) is Some,
        ok ==> Some(final(object)@) == signed_event_of(server_name@, *key, old(object)@, version),
        !ok ==> final(object)@ == old(object)@,
{
    match hash_and_sign_text(server_name, key, object, version_string(version)) {
        Some((hashes, signatures)) => {
            object.insert("hashes", hashes);
            object.insert("signatures", signatures);
            true
        },
        None => false,
    }
}

/// Whether the event carries the signatures it needs, under `keys`.
pub fn verify_event(keys: &Vec<PublicKey>, object: &JsonObject, version: RoomVersion) -> (ok: bool)
    requires
        object.wf(),
    ensures
        ok == event_verifies(key_views(keys@), object@, version_text(version)),
{
    verify_event_text(keys, object, version_string(version))
}

/// The event id and the members of an event received as JSON text.
pub open spec fn event_id_and_members(text: Seq<char>, version: RoomVersion) -> Option<
    (Seq<char>, Map<Seq<char>, Seq<char>>),
> {
    match json_object_of(text) {
        Some(members) => match received_event_id_of(members, version) {
            Some(id) => Some((id, members)),
            None => None,
        },
        None => None,
    }
}

/// Reads an event from JSON text and finds its event id: carried in the
/// event in room versions 1 and 2, derived from the reference hash from
/// version 3 on. The event is handed back as it was received.
pub fn gen_event_id_canonical_json(text: &str, version: RoomVersion) -> (r: Option<
    (String, JsonObject),
>)
    ensures
        r is Some <==> event_id_and_members(text@, version) is Some,
        r matches Some(p) ==> p.1.wf() && Some((p.0@, p.1@)) == event_id_and_members(
            text@,
            version,
        ),
{
    match JsonObject::parse(text) {
        Some(object) => match received_event_id(&object, version) {
            Some(id) => Some((id, object)),
            None => None,
        },
        None => None,
    }
}

} // verus!
