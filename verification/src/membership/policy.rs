//! What a user may do: the checks that stand before a membership change.

use crate::error::{Error, ErrorKind};
use crate::membership::content::MembershipState;
use crate::text::{contains_string, opt_view, server_name_of, server_part, views};
use vstd::prelude::*;

verus! {

/// A request that was turned down, and whether the user is deactivated on
/// top of that.
#[derive(Debug)]
pub struct Rejection {
    pub error: Error,
    /// Whether the user is to be deactivated and taken out of all rooms.
    pub deactivate: bool,
}

/// Whether joining or inviting into a room is forbidden to ordinary users:
/// the room is banned, or its server is on the list of forbidden servers.
pub open spec fn room_forbidden(room_id: Seq<char>, banned: bool, forbidden: Seq<Seq<char>>)
    -> bool {
    banned || match server_part(room_id) {
        Some(server) => forbidden.contains(server),
        None => false,
    }
}

/// The text of the refusal, if the request is refused: a forbidden room
/// refuses first, then a forbidden named server, whether a room is named
/// or not.
pub open spec fn ban_refusal(
    is_admin: bool,
    room: Option<(Seq<char>, bool)>,
    server_name: Option<Seq<char>>,
    forbidden: Seq<Seq<char>>,
) -> Option<Seq<char>> {
    if is_admin {
        None
    } else if room matches Some((room_id, banned)) && room_forbidden(room_id, banned, forbidden) {
        Some("This room is banned on this homeserver."@)
    } else if server_name matches Some(server) && forbidden.contains(server) {
        Some("This remote server is banned on this homeserver."@)
    } else {
        None
    }
}

/// Checks whether the room or the server is banned for the user.
///
/// An administrator passes. Anyone else is refused where the room is
/// banned or its server is forbidden, and where the named server is
/// forbidden. With `auto_deactivate` the refused user is deactivated as
/// well.
///
/// `room` is the room id with whether the room is banned; `server_name` is
/// the server that the request names: the server of the room id or of the
/// alias.
pub fn banned_room_check(
    is_admin: bool,
    room: Option<(&str, bool)>,
    server_name: Option<&str>,
    forbidden_remote_server_names: &Vec<String>,
    auto_deactivate: bool,
) -> (r: Result<(), Rejection>)
    ensures
        ({
            let refusal = ban_refusal(
                is_admin,
                match room {
                    Some(p) => Some((p.0@, p.1)),
                    None => None,
                },
                match server_name {
                    Some(s) => Some(s@),
                    None => None,
                },
                views(forbidden_remote_server_names@),
            );
            &&& r is Err <==> refusal is Some
            &&& r matches Err(rejection) ==> rejection.error.is(ErrorKind::Forbidden, refusal->0)
                && rejection.deactivate == auto_deactivate
        }),
{
    if is_admin {
        return Ok(());
    }
    match room {
        Some((room_id, banned)) => {
            let forbidden = banned || match server_name_of(room_id) {
                Some(server) => contains_string(forbidden_remote_server_names, &server),
                None => false,
            };
            if forbidden {
                return Err(
                    Rejection {
                        error: Error::new(
                            ErrorKind::Forbidden,
                            "This room is banned on this homeserver.",
                        ),
                        deactivate: auto_deactivate,
                    },
                );
            }
        },
        None => {},
    }
    match server_name {
        Some(server) => {
            if contains_string(forbidden_remote_server_names, &server.to_owned()) {
                return Err(
                    Rejection {
                        error: Error::new(
                            ErrorKind::Forbidden,
                            "This remote server is banned on this homeserver.",
                        ),
                        deactivate: auto_deactivate,
                    },
                );
            }
        },
        None => {},
    }
    Ok(())
}

/// What becomes of a request to invite.
#[derive(Clone, Copy, Debug, PartialEq, Eq, Structural)]
pub enum InviteRoute {
    /// The invite is sent.
    Invite,
    /// The recipient ignores the sender: the request succeeds and nothing
    /// is sent.
    Dropped,
}

/// What is known when a user asks to invite someone.
#[derive(Debug)]
pub struct InviteRequest {
    pub sender_is_admin: bool,
    /// Whether the recipient is named by a user id.
    pub recipient_is_user: bool,
    /// Whether the sender ignores the recipient.
    pub sender_ignores_recipient: bool,
    /// Whether the recipient ignores the sender.
    pub recipient_ignores_sender: bool,
}

/// Decides a request to invite, after the check for banned rooms has
/// passed or failed.
///
/// Where only administrators may invite, anyone else is refused first. A
/// banned room refuses next. Then: a sender who ignores the recipient is
/// refused; a recipient who ignores the sender never learns of the invite;
/// a recipient who is not named by a user id is not found.
pub fn invite_user_route(
    request: &InviteRequest,
    block_non_admin_invites: bool,
    ban_check: Result<(), Rejection>,
) -> (r: Result<InviteRoute, Rejection>)
    ensures
        (!request.sender_is_admin && block_non_admin_invites) ==> (r matches Err(rejection)
            && rejection.error.is(ErrorKind::Forbidden, "Invites are not allowed on this server."@)
            && !rejection.deactivate),
        !(!request.sender_is_admin && block_non_admin_invites) ==> match ban_check {
            Err(rejection) => r == Err::<InviteRoute, Rejection>(rejection),
            Ok(_) => if !request.recipient_is_user {
                r matches Err(rejection) && rejection.error.is(
                    ErrorKind::NotFound,
                    "User not found."@,
                ) && !rejection.deactivate
            } else if request.sender_ignores_recipient {
                r matches Err(rejection) && rejection.error.is(
                    ErrorKind::Forbidden,
                    "You cannot invite users you have ignored to rooms."@,
                ) && !rejection.deactivate
            } else if request.recipient_ignores_sender {
                r == Ok::<InviteRoute, Rejection>(InviteRoute::Dropped)
            } else {
                r == Ok::<InviteRoute, Rejection>(InviteRoute::Invite)
            },
        },
{
    if !request.sender_is_admin && block_non_admin_invites {
        return Err(
            Rejection {
                error: Error::new(ErrorKind::Forbidden, "Invites are not allowed on this server."),
                deactivate: false,
            },
        );
    }
    match ban_check {
        Err(rejection) => {
            return Err(rejection);
        },
        Ok(_) => {},
    }
    if !request.recipient_is_user {
        return Err(
            Rejection {
                error: Error::new(ErrorKind::NotFound, "User not found."),
                deactivate: false,
            },
        );
    }
    if request.sender_ignores_recipient {
        return Err(
            Rejection {
                error: Error::new(
                    ErrorKind::Forbidden,
                    "You cannot invite users you have ignored to rooms.",
                ),
                deactivate: false,
            },
        );
    }
    if request.recipient_ignores_sender {
        return Ok(InviteRoute::Dropped);
    }
    Ok(InviteRoute::Invite)
}

/// How a user stands to a room.
#[derive(Clone, Copy, Debug, PartialEq, Eq, Structural)]
pub struct RoomMembership {
    /// The user's membership, if there is any.
    pub membership: Option<MembershipState>,
    /// Whether the room is hidden from the user's lists.
    pub forgotten: bool,
}

impl RoomMembership {
    /// Whether the user is in the room.
    pub open spec fn joined(self) -> bool {
        self.membership == Some(MembershipState::Join)
    }

    /// How the user stands to the room once they have asked to forget it:
    /// a room that the user is not in is hidden; a room that the user is
    /// still in stays as it is.
    pub open spec fn after_forget(self) -> RoomMembership {
        if self.joined() {
            self
        } else {
            RoomMembership { forgotten: true, ..self }
        }
    }
}

/// Forgets a room for a user: hides it from the user's lists. A room that
/// the user is still in cannot be forgotten.
pub fn forget_room_route(state: &mut RoomMembership) -> (r: Result<(), Error>)
    ensures
        *final(state) == old(state).after_forget(),
        r is Err <==> old(state).joined(),
        r matches Err(e) ==> e.is(
            ErrorKind::BadState,
            "You must leave the room before forgetting it"@,
        ),
{
    match state.membership {
        Some(MembershipState::Join) => {
            return Err(
                Error::new(ErrorKind::BadState, "You must leave the room before forgetting it"),
            );
        },
        _ => {},
    }
    state.forgotten = true;
    Ok(())
}

/// Forgetting a room a second time changes nothing.
pub proof fn lemma_forget_twice(state: RoomMembership)
    ensures
        state.after_forget().after_forget() == state.after_forget(),
        !state.joined() ==> state.after_forget().forgotten,
{
}

/// An entry of a room's state.
#[derive(Debug)]
pub struct StateEntry {
    pub event_type: String,
    pub state_key: String,
    pub event_id: String,
}

/// The ids of the membership events among the entries, in order.
pub open spec fn member_event_ids(state: Seq<StateEntry>) -> Seq<Seq<char>>
    decreases state.len(),
{
    if state.len() == 0 {
        Seq::empty()
    } else if state.last().event_type@ == "m.room.member"@ {
        member_event_ids(state.drop_last()).push(state.last().event_id@)
    } else {
        member_event_ids(state.drop_last())
    }
}

/// Refuses a user who may not see the state of the room.
pub fn ensure_can_see(can_see_state_events: bool) -> (r: Result<(), Error>)
    ensures
        r is Ok <==> can_see_state_events,
        r matches Err(e) ==> e.is(
            ErrorKind::Forbidden,
            "You don't have permission to view this room."@,
        ),
{
    if can_see_state_events {
        Ok(())
    } else {
        Err(Error::new(ErrorKind::Forbidden, "You don't have permission to view this room."))
    }
}

/// The membership events of a room, for a user who may see its state.
pub fn get_member_events_route(can_see_state_events: bool, state: &Vec<StateEntry>) -> (r: Result<
    Vec<String>,
    Error,
>)
    ensures
        r is Ok <==> can_see_state_events,
        r matches Ok(ids) ==> views(ids@) == member_event_ids(state@),
        r matches Err(e) ==> e.is(
            ErrorKind::Forbidden,
            "You don't have permission to view this room."@,
        ),
{
    match ensure_can_see(can_see_state_events) {
        Err(e) => {
            return Err(e);
        },
        Ok(_) => {},
    }
    let member = "m.room.member".to_owned();
    let mut ids: Vec<String> = Vec::new();
    let mut i: usize = 0;
    assert(state@.subrange(0, 0) =~= Seq::<StateEntry>::empty());
    assert(views(ids@) =~= Seq::empty());
    while i < state.len()
        invariant
            i <= state.len(),
            member@ == "m.room.member"@,
            views(ids@) == member_event_ids(state@.subrange(0, i as int)),
        decreases state.len() - i,
    {
        proof {
            assert(state@.subrange(0, i + 1).drop_last() =~= state@.subrange(0, i as int));
            assert(state@.subrange(0, i + 1).last() == state@[i as int]);
        }
        if state[i].event_type == member {
            let ghost before = views(ids@);
            ids.push(state[i].event_id.clone());
            assert(views(ids@) =~= before.push(state@[i as int].event_id@));
        }
        i = i + 1;
    }
    assert(state@.subrange(0, state.len() as int) =~= state@);
    Ok(ids)
}

} // verus!
