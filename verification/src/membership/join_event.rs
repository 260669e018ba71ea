//! Making the event that a join or leave over federation submits: the stub
//! that a peer prepared is filled in, hashed, signed and given its id.

use crate::error::{Error, ErrorKind};
use crate::ids::{is_user_id, valid_user_id};
use crate::json::{json_object_of, json_string_of, json_text_of, member_string, JsonObject};
use crate::membership::content::{
    join_content, join_content_of, member_content_text, membership_name, MemberContent,
    MembershipState, Profile,
};
use crate::room_version::RoomVersion;
use crate::signing::{
    event_id, event_id_and_members, event_id_of, gen_event_id_canonical_json,
    hash_and_sign_event, signed_event_of, SigningKey,
};
use crate::text::{decimal, decimal_string, opt_view};
use vstd::prelude::*;

verus! {

/// The user named in the content of a stub as the one whose server
/// authorises a restricted join, where the content names a user id.
pub open spec fn stub_authorizer(stub: Map<Seq<char>, Seq<char>>) -> Option<Seq<char>> {
    if stub.contains_key("content"@) {
        match json_object_of(stub["content"@]) {
            Some(content) => match member_string(content, "join_authorised_via_users_server"@) {
                Some(user) => if is_user_id(user) {
                    Some(user)
                } else {
                    None
                },
                None => None,
            },
            None => None,
        }
    } else {
        None
    }
}

/// Reads from the stub of a join who authorises it.
pub fn join_authorizer(stub: &JsonObject) -> (r: Option<String>)
    requires
        stub.wf(),
    ensures
        opt_view(r) == stub_authorizer(stub@),
{
    let content_text = match stub.get("content") {
        Some(t) => t,
        None => {
            return None;
        },
    };
    let content = match JsonObject::parse(content_text.as_str()) {
        Some(c) => c,
        None => {
            return None;
        },
    };
    match content.get_string("join_authorised_via_users_server") {
        Some(user) => if valid_user_id(user.as_str()) {
            Some(user)
        } else {
            None
        },
        None => None,
    }
}

/// The stub filled in: this server as the origin, the time in
/// milliseconds, the new content if there is one, and from room version 3
/// on no event id.
pub open spec fn filled_stub(
    stub: Map<Seq<char>, Seq<char>>,
    server_name: Seq<char>,
    now: u64,
    content: Option<Seq<char>>,
    version: RoomVersion,
) -> Map<Seq<char>, Seq<char>> {
    let dated = stub.insert("origin"@, json_string_of(server_name)).insert(
        "origin_server_ts"@,
        decimal(now as nat),
    );
    let filled = match content {
        Some(text) => dated.insert("content"@, text),
        None => dated,
    };
    if version.spec_event_id_in_band() {
        filled
    } else {
        filled.remove("event_id"@)
    }
}

/// The event made of a filled stub: hashed and signed, with the id derived
/// from its reference hash as the member `event_id`; and that id. `None`
/// where the stub cannot be signed or hashed.
pub open spec fn finished_event(
    filled: Map<Seq<char>, Seq<char>>,
    server_name: Seq<char>,
    key: SigningKey,
    version: RoomVersion,
) -> Option<(Map<Seq<char>, Seq<char>>, Seq<char>)> {
    match signed_event_of(server_name, key, filled, version) {
        Some(signed) => match event_id_of(signed, version) {
            Some(id) => Some((signed.insert("event_id"@, json_string_of(id)), id)),
            None => None,
        },
        None => None,
    }
}

/// An event ready to be submitted to a peer.
#[derive(Debug)]
pub struct PreparedEvent {
    /// The event, with its id among its members.
    pub event: JsonObject,
    /// The id of the event.
    pub event_id: String,
    /// Who authorises a restricted join, if the stub named someone.
    pub authorized_via: Option<String>,
}

fn finish_event(
    stub: JsonObject,
    server_name: &str,
    key: &SigningKey,
    now: u64,
    content: Option<String>,
    version: RoomVersion,
) -> (r: Option<(JsonObject, String)>)
    requires
        stub.wf(),
    ensures
        ({
            let finished = finished_event(
                filled_stub(stub@, server_name@, now, opt_view(content), version),
                server_name@,
                *key,
                version,
            );
            &&& r is Some <==> finished is Some
            &&& r matches Some(p) ==> p.0.wf() && Some((p.0@, p.1@)) == finished
        }),
{
    let mut event = stub;
    event.insert_string("origin", server_name);
    event.insert("origin_server_ts", decimal_string(now));
    match content {
        Some(text) => {
            event.insert("content", text);
        },
        None => {},
    }
    if !version.event_id_in_band() {
        event.remove("event_id");
    }
    if !hash_and_sign_event(server_name, key, &mut event, version) {
        return None;
    }
    let id = match event_id(&event, version) {
        Some(id) => id,
        None => {
            return None;
        },
    };
    event.insert_string("event_id", id.as_str());
    Some((event, id))
}

/// The join event made of the stub with the text `stub`; `None` where the
/// stub is no JSON object or cannot be filled in, signed or hashed.
pub open spec fn prepared_join(
    stub: Seq<char>,
    version: RoomVersion,
    server_name: Seq<char>,
    key: SigningKey,
    now: u64,
    profile: Profile,
    reason: Option<Seq<char>>,
) -> Option<(Map<Seq<char>, Seq<char>>, Seq<char>, Option<Seq<char>>)> {
    match json_object_of(stub) {
        Some(members) => {
            let authorizer = stub_authorizer(members);
            match member_content_text(
                membership_name(MembershipState::Join),
                join_content_of(profile, reason, authorizer),
            ) {
                Some(content) => match finished_event(
                    filled_stub(members, server_name, now, Some(content), version),
                    server_name,
                    key,
                    version,
                ) {
                    Some((event, id)) => Some((event, id, authorizer)),
                    None => None,
                },
                None => None,
            }
        },
        None => None,
    }
}

/// Makes the join event from the stub that a peer prepared.
///
/// The stub keeps what the peer put into it, except: `origin` is this
/// server, `origin_server_ts` is `now` (in milliseconds), and `content` is a
/// fresh join with the user's profile, the reason, and the authorising user
/// that the stub named. From room version 3 on the stub's `event_id` is
/// dropped. The event is then hashed and signed with this server's key, and
/// its id, derived from the reference hash, is put back as `event_id`.
pub fn prepare_join_event(
    stub: &str,
    version: RoomVersion,
    server_name: &str,
    key: &SigningKey,
    now: u64,
    profile: &Profile,
    reason: Option<String>,
) -> (r: Result<PreparedEvent, Error>)
    ensures
        ({
            let prepared = prepared_join(
                stub@,
                version,
                server_name@,
                *key,
                now,
                *profile,
                opt_view(reason),
            );
            &&& r is Ok <==> prepared is Some
            &&& r matches Ok(p) ==> p.event.wf() && Some(
                (p.event@, p.event_id@, opt_view(p.authorized_via)),
            ) == prepared
            &&& r matches Err(e) ==> e.is(
                ErrorKind::BadServerResponse,
                "Invalid make_join event json received from server"@,
            )
        }),
{
    let object = match JsonObject::parse(stub) {
        Some(o) => o,
        None => {
            return Err(
                Error::new(
                    ErrorKind::BadServerResponse,
                    "Invalid make_join event json received from server",
                ),
            );
        },
    };
    let authorized_via = join_authorizer(&object);
    let content = join_content(profile, reason, crate::text::clone_opt(&authorized_via));
    let content_text = match content.to_json() {
        Some(t) => t,
        None => {
            return Err(
                Error::new(
                    ErrorKind::BadServerResponse,
                    "Invalid make_join event json received from server",
                ),
            );
        },
    };
    match finish_event(object, server_name, key, now, Some(content_text), version) {
        Some((event, event_id)) => Ok(PreparedEvent { event, event_id, authorized_via }),
        None => Err(
            Error::new(
                ErrorKind::BadServerResponse,
                "Invalid make_join event json received from server",
            ),
        ),
    }
}

/// The leave event made of the stub with the text `stub`.
pub open spec fn prepared_leave(
    stub: Seq<char>,
    version: RoomVersion,
    server_name: Seq<char>,
    key: SigningKey,
    now: u64,
) -> Option<(Map<Seq<char>, Seq<char>>, Seq<char>)> {
    match json_object_of(stub) {
        Some(members) => finished_event(
            filled_stub(members, server_name, now, None, version),
            server_name,
            key,
            version,
        ),
        None => None,
    }
}

/// Makes the leave event from the stub that a peer prepared: the stub with
/// this server as the origin and `now` as the time, hashed, signed, and
/// given its id.
pub fn prepare_leave_event(
    stub: &str,
    version: RoomVersion,
    server_name: &str,
    key: &SigningKey,
    now: u64,
) -> (r: Result<PreparedEvent, Error>)
    ensures
        ({
            let prepared = prepared_leave(stub@, version, server_name@, *key, now);
            &&& r is Ok <==> prepared is Some
            &&& r matches Ok(p) ==> p.event.wf() && Some((p.event@, p.event_id@)) == prepared
                && p.authorized_via is None
            &&& r matches Err(e) ==> e.is(
                ErrorKind::BadServerResponse,
                "Invalid make_leave event json received from server"@,
            )
        }),
{
    let object = match JsonObject::parse(stub) {
        Some(o) => o,
        None => {
            return Err(
                Error::new(
                    ErrorKind::BadServerResponse,
                    "Invalid make_leave event json received from server",
                ),
            );
        },
    };
    match finish_event(object, server_name, key, now, None, version) {
        Some((event, event_id)) => Ok(PreparedEvent { event, event_id, authorized_via: None }),
        None => Err(
            Error::new(
                ErrorKind::BadServerResponse,
                "Invalid make_leave event json received from server",
            ),
        ),
    }
}

/// The event as it goes to a peer. From room version 3 on the id does not
/// travel with the event: the peer derives it. In versions 1 and 2 the
/// event carries its id.
pub open spec fn outgoing_event(event: Map<Seq<char>, Seq<char>>, version: RoomVersion) -> Option<
    Seq<char>,
> {
    if version.spec_event_id_in_band() {
        json_text_of(event)
    } else {
        json_text_of(event.remove("event_id"@))
    }
}

/// The JSON text of an event as it is sent to a peer.
pub fn convert_to_outgoing_federation_event(event: &JsonObject, version: RoomVersion) -> (r: Option<
    String,
>)
    requires
        event.wf(),
    ensures
        opt_view(r) == outgoing_event(event@, version),
{
    if version.event_id_in_band() {
        return event.to_text();
    }
    let mut copy = event.duplicate();
    copy.remove("event_id");
    copy.to_text()
}

/// The room version that a peer's answer names, where this server supports
/// it.
pub open spec fn usable_version(named: Option<Seq<char>>, supported: Seq<RoomVersion>) -> Option<
    RoomVersion,
> {
    match named {
        Some(name) => match crate::room_version::version_named(name) {
            Some(v) => if supported.contains(v) {
                Some(v)
            } else {
                None
            },
            None => None,
        },
        None => None,
    }
}

/// Picks the room version from a peer's answer to `make_join` or
/// `make_leave`. An answer without a version, or with one that this server
/// does not support, is refused.
pub fn select_room_version(named: &Option<String>, supported: &Vec<RoomVersion>) -> (r: Result<
    RoomVersion,
    Error,
>)
    ensures
        ({
            let usable = usable_version(opt_view(*named), supported@);
            &&& r is Ok <==> usable is Some
            &&& r matches Ok(v) ==> Some(v) == usable
            &&& r matches Err(e) ==> e.is(
                ErrorKind::BadServerResponse,
                "Room version is not supported"@,
            )
        }),
{
    match named {
        Some(name) => match RoomVersion::parse(name.as_str()) {
            Some(v) => if crate::room_version::version_supported(supported, v) {
                return Ok(v);
            },
            None => {},
        },
        None => {},
    }
    Err(Error::new(ErrorKind::BadServerResponse, "Room version is not supported"))
}

/// What became of the countersignature of a restricted join.
#[derive(Clone, Copy, Debug, PartialEq, Eq, Structural)]
pub enum Graft {
    /// None was looked for: the join names no authorising user, the room
    /// version knows no restricted joins, or the peer sent no event back.
    NotNeeded,
    /// The peer's signature is now among the signatures of our event.
    Grafted,
    /// The peer sent its event without a usable signature of its own; our
    /// event stays as it is.
    NoSignature,
}

/// The peer's signature in the event that it sent back.
pub open spec fn remote_signature(signed: Map<Seq<char>, Seq<char>>, remote: Seq<char>) -> Option<
    Seq<char>,
> {
    if signed.contains_key("signatures"@) {
        match json_object_of(signed["signatures"@]) {
            Some(signatures) => if signatures.contains_key(remote) {
                Some(signatures[remote])
            } else {
                None
            },
            None => None,
        }
    } else {
        None
    }
}

/// Our event with the peer's signature added to its signatures; `None`
/// where our event has no signatures to add to.
pub open spec fn with_signature(
    ours: Map<Seq<char>, Seq<char>>,
    remote: Seq<char>,
    signature: Seq<char>,
) -> Option<Map<Seq<char>, Seq<char>>> {
    if ours.contains_key("signatures"@) {
        match json_object_of(ours["signatures"@]) {
            Some(signatures) => match json_text_of(signatures.insert(remote, signature)) {
                Some(text) => Some(ours.insert("signatures"@, text)),
                None => None,
            },
            None => None,
        }
    } else {
        None
    }
}

/// Whether a countersignature is looked for at all.
pub open spec fn graft_needed(authorized: bool, version: RoomVersion, signed: Option<Seq<char>>)
    -> bool {
    authorized && version.spec_has_restricted_joins() && signed is Some
}

/// What becomes of our join event and of the countersignature.
pub open spec fn graft_outcome(
    ours: Map<Seq<char>, Seq<char>>,
    our_id: Seq<char>,
    authorized: bool,
    version: RoomVersion,
    signed: Option<Seq<char>>,
    remote: Seq<char>,
) -> Result<(Map<Seq<char>, Seq<char>>, Graft), Seq<char>> {
    if !graft_needed(authorized, version, signed) {
        Ok((ours, Graft::NotNeeded))
    } else {
        match event_id_and_members(signed->0, version) {
            None => Err("Could not convert event to canonical json."@),
            Some((id, members)) => if id != our_id {
                Err("Server sent event with wrong event id"@)
            } else {
                match remote_signature(members, remote) {
                    None => Ok((ours, Graft::NoSignature)),
                    Some(signature) => match with_signature(ours, remote, signature) {
                        Some(grafted) => Ok((grafted, Graft::Grafted)),
                        None => Ok((ours, Graft::NoSignature)),
                    },
                }
            },
        }
    }
}

/// Whether two events have the same members, but perhaps for
/// `signatures`.
pub open spec fn same_but_signatures(
    a: Map<Seq<char>, Seq<char>>,
    b: Map<Seq<char>, Seq<char>>,
) -> bool {
    forall|k: Seq<char>|
        #![trigger a.contains_key(k)]
        #![trigger a[k]]
        k != "signatures"@ ==> (a.contains_key(k) == b.contains_key(k) && a[k] == b[k])
}

/// Grafting leaves every member of our event but `signatures` as it was:
/// hashes, content and event id stay. Where nothing is grafted, the whole
/// event stays.
pub proof fn lemma_graft_keeps_members(
    ours: Map<Seq<char>, Seq<char>>,
    our_id: Seq<char>,
    authorized: bool,
    version: RoomVersion,
    signed: Option<Seq<char>>,
    remote: Seq<char>,
)
    ensures
        graft_outcome(ours, our_id, authorized, version, signed, remote) matches Ok(p)
            ==> same_but_signatures(p.0, ours) && p.0.contains_key("signatures"@)
            == ours.contains_key("signatures"@) && (p.1 != Graft::Grafted ==> p.0 == ours),
{
}

fn find_signature(signed: &JsonObject, remote: &str) -> (r: Option<String>)
    requires
        signed.wf(),
    ensures
        opt_view(r) == remote_signature(signed@, remote@),
{
    let text = match signed.get("signatures") {
        Some(t) => t,
        None => {
            return None;
        },
    };
    match JsonObject::parse(text.as_str()) {
        Some(signatures) => signatures.get(remote),
        None => None,
    }
}

fn add_signature(ours: &mut JsonObject, remote: &str, signature: String) -> (ok: bool)
    requires
        old(ours).wf(),
    ensures
        final(ours).wf(),
        ok == with_signature(old(ours)@, remote@, signature@) is Some,
        ok ==> Some(final(ours)@) == with_signature(old(ours)@, remote@, signature@),
        !ok ==> final(ours)@ == old(ours)@,
{
    let text = match ours.get("signatures") {
        Some(t) => t,
        None => {
            return false;
        },
    };
    let mut signatures = match JsonObject::parse(text.as_str()) {
        Some(s) => s,
        None => {
            return false;
        },
    };
    signatures.insert(remote, signature);
    match signatures.to_text() {
        Some(new_text) => {
            ours.insert("signatures", new_text);
            true
        },
        None => false,
    }
}

/// Takes the peer's countersignature of a restricted join into our event.
///
/// Nothing is done unless the join names an authorising user, the room
/// version is 8 or later, and the peer sent a signed event back. That
/// event must have the id of ours. Its signature by `remote_server` is then
/// added to the signatures of our event; where it has none, our event
/// stays as it is.
pub fn graft_remote_signature(
    join_event: &mut JsonObject,
    event_id: &str,
    authorized: bool,
    version: RoomVersion,
    signed_event: &Option<String>,
    remote_server: &str,
) -> (r: Result<Graft, Error>)
    requires
        old(join_event).wf(),
    ensures
        final(join_event).wf(),
        same_but_signatures(final(join_event)@, old(join_event)@),
        match graft_outcome(
            old(join_event)@,
            event_id@,
            authorized,
            version,
            opt_view(*signed_event),
            remote_server@,
        ) {
            Ok((event, graft)) => r == Ok::<Graft, Error>(graft) && final(join_event)@ == event,
            Err(message) => (r matches Err(e) && e.is(ErrorKind::BadServerResponse, message))
                && final(join_event)@ == old(join_event)@,
        },
{
    if !authorized || !version.has_restricted_joins() {
        return Ok(Graft::NotNeeded);
    }
    let signed_raw = match signed_event {
        Some(t) => t,
        None => {
            return Ok(Graft::NotNeeded);
        },
    };
    let (signed_id, signed_value) = match gen_event_id_canonical_json(
        signed_raw.as_str(),
        version,
    ) {
        Some(p) => p,
        None => {
            return Err(
                Error::new(ErrorKind::BadServerResponse, "Could not convert event to canonical json."),
            );
        },
    };
    if signed_id != event_id.to_owned() {
        return Err(Error::new(ErrorKind::BadServerResponse, "Server sent event with wrong event id"));
    }
    match find_signature(&signed_value, remote_server) {
        Some(signature) => {
            if add_signature(join_event, remote_server, signature) {
                Ok(Graft::Grafted)
            } else {
                Ok(Graft::NoSignature)
            }
        },
        None => Ok(Graft::NoSignature),
    }
}

} // verus!
