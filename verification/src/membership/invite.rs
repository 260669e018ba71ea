//! Inviting a user: to a local user by an event appended here, to a user
//! of another server by an event that their server signs as well.

use crate::error::{Error, ErrorKind};
use crate::ids::{is_server_name, valid_server_name};
use crate::json::{member_string, JsonObject};
use crate::membership::content::{invite_content, invite_content_of, MemberContent, Profile};
use crate::room_version::RoomVersion;
use crate::sending::edu::{is_local, user_is_local};
use crate::signing::{event_id_and_members, gen_event_id_canonical_json};
use crate::text::opt_view;
use vstd::prelude::*;

verus! {

/// How an invite is made.
#[derive(Debug)]
pub enum InvitePlan {
    /// The recipient belongs to another server: the event with this
    /// content is made and signed here, sent to that server, and taken in
    /// as it comes back.
    Remote(MemberContent),
    /// The recipient is local: the event with this content is appended.
    Local(MemberContent),
}

/// Why an invite is refused; `None` where it is made.
pub open spec fn invite_refusal(
    recipient_is_admin: bool,
    block_non_admin_invites: bool,
    recipient_is_local: bool,
    sender_is_joined: bool,
) -> Option<Seq<char>> {
    if !recipient_is_admin && block_non_admin_invites {
        Some("Invites are not allowed on this server."@)
    } else if recipient_is_local && !sender_is_joined {
        Some("You don't have permission to view this room."@)
    } else {
        None
    }
}

/// Plans an invite.
///
/// Where only administrators may be invited, anyone else is refused. An
/// invite to a user of another server goes over federation and carries the
/// avatar only. An invite to a local user needs the sender to be in the
/// room, and carries the recipient's whole profile.
pub fn invite_helper(
    recipient: &str,
    own: &str,
    recipient_is_admin: bool,
    block_non_admin_invites: bool,
    sender_is_joined: bool,
    profile: &Profile,
    is_direct: bool,
    reason: Option<String>,
) -> (r: Result<InvitePlan, Error>)
    ensures
        ({
            let local = is_local(recipient@, own@);
            let refusal = invite_refusal(
                recipient_is_admin,
                block_non_admin_invites,
                local,
                sender_is_joined,
            );
            &&& r is Err <==> refusal is Some
            &&& r matches Err(e) ==> e.is(ErrorKind::Forbidden, refusal->0)
            &&& r matches Ok(plan) ==> match plan {
                InvitePlan::Remote(content) => !local && content@ == invite_content_of(
                    *profile,
                    false,
                    is_direct,
                    opt_view(reason),
                ),
                InvitePlan::Local(content) => local && content@ == invite_content_of(
                    *profile,
                    true,
                    is_direct,
                    opt_view(reason),
                ),
            }
        }),
{
    if !recipient_is_admin && block_non_admin_invites {
        return Err(Error::new(ErrorKind::Forbidden, "Invites are not allowed on this server."));
    }
    if !user_is_local(recipient, own) {
        return Ok(InvitePlan::Remote(invite_content(profile, false, is_direct, reason)));
    }
    if !sender_is_joined {
        return Err(
            Error::new(ErrorKind::Forbidden, "You don't have permission to view this room."),
        );
    }
    Ok(InvitePlan::Local(invite_content(profile, true, is_direct, reason)))
}

/// An invite as the recipient's server sent it back.
#[derive(Debug)]
pub struct AcceptedInvite {
    pub event_id: String,
    pub event: JsonObject,
    /// The server that the event names as its origin.
    pub origin: String,
    /// Whether the event that came back is another than the one sent.
    pub changed: bool,
}

/// What the answer to a remote invite comes to: the id, the members and
/// the origin of the event, or the text of the refusal.
pub open spec fn invite_answer(event: Seq<char>, version: RoomVersion) -> Result<
    (Seq<char>, Map<Seq<char>, Seq<char>>, Seq<char>),
    Seq<char>,
> {
    match event_id_and_members(event, version) {
        None => Err("Could not convert event to canonical json."@),
        Some((id, members)) => if !members.contains_key("origin"@) {
            Err("Event needs an origin field."@)
        } else {
            match member_string(members, "origin"@) {
                Some(origin) => if is_server_name(origin) {
                    Ok((id, members, origin))
                } else {
                    Err("Origin field is invalid."@)
                },
                None => Err("Origin field is invalid."@),
            }
        },
    }
}

/// Reads the event that the recipient's server sent back for an invite.
/// It must be an event with an origin that is a server name. A server that
/// sends back another event than it was given is noted, not refused.
pub fn accept_invite_response(event: &str, version: RoomVersion, sent_event_id: &str) -> (r: Result<
    AcceptedInvite,
    Error,
>)
    ensures
        match invite_answer(event@, version) {
            Ok((id, members, origin)) => {
                &&& r matches Ok(accepted)
                &&& accepted.event_id@ == id
                &&& accepted.event.wf()
                &&& accepted.event@ == members
                &&& accepted.origin@ == origin
                &&& accepted.changed == (id != sent_event_id@)
            },
            Err(message) => r matches Err(e) && e.is(ErrorKind::BadServerResponse, message),
        },
{
    let (event_id, value) = match gen_event_id_canonical_json(event, version) {
        Some(p) => p,
        None => {
            return Err(
                Error::new(ErrorKind::BadServerResponse, "Could not convert event to canonical json."),
            );
        },
    };
    if !value.contains_key("origin") {
        return Err(Error::new(ErrorKind::BadServerResponse, "Event needs an origin field."));
    }
    let origin = match value.get_string("origin") {
        Some(o) => o,
        None => {
            return Err(Error::new(ErrorKind::BadServerResponse, "Origin field is invalid."));
        },
    };
    if !valid_server_name(origin.as_str()) {
        return Err(Error::new(ErrorKind::BadServerResponse, "Origin field is invalid."));
    }
    let changed = event_id != sent_event_id.to_owned();
    Ok(AcceptedInvite { event_id, event: value, origin, changed })
}

/// Takes the outcome of handling the invite as an incoming event. An event
/// that did not become part of the timeline is a failure.
pub fn invite_pdu_accepted(pdu_id: Option<Vec<u8>>) -> (r: Result<Vec<u8>, Error>)
    ensures
        r is Ok <==> pdu_id is Some,
        r matches Ok(id) ==> id == pdu_id->0,
        r matches Err(e) ==> e.is(
            ErrorKind::BadServerResponse,
            "Could not accept incoming PDU as timeline event."@,
        ),
{
    match pdu_id {
        Some(id) => Ok(id),
        None => Err(
            Error::new(
                ErrorKind::BadServerResponse,
                "Could not accept incoming PDU as timeline event.",
            ),
        ),
    }
}

} // verus!
