//! Joining a room: which way a join takes, and the join through a room
//! that this server already takes part in.
//!
//! A join that finds the user in the room succeeds at once and does
//! nothing. Otherwise the join is made here where this server has a member
//! in the room or nobody else can be asked, and over federation where not.

use crate::error::{Error, ErrorKind};
use crate::json::JsonObject;
use crate::room_version::RoomVersion;
use crate::signing::{event_id_and_members, gen_event_id_canonical_json};
use crate::text::{opt_view, views};
use vstd::prelude::*;

verus! {

/// What is known of the user and the room when a join is asked for.
#[derive(Debug)]
pub struct JoinFacts {
    /// Whether the user's account is deactivated.
    pub user_is_deactivated: bool,
    /// Whether the request comes from an appservice.
    pub is_appservice: bool,
    /// Whether the room lets guests in.
    pub guest_can_join: bool,
    /// Whether the user is in the room already.
    pub is_joined: bool,
    /// Whether this server has a member in the room.
    pub server_in_room: bool,
}

/// The way a join takes.
#[derive(Clone, Copy, Debug, PartialEq, Eq, Structural)]
pub enum JoinPath {
    /// The user is in the room: the join has succeeded, and nothing is
    /// done.
    AlreadyJoined,
    /// The join event is made and appended here.
    Local,
    /// Another server is asked to help.
    Remote,
}

/// Whether the user counts as a guest.
pub open spec fn is_guest(facts: JoinFacts) -> bool {
    facts.user_is_deactivated && !facts.is_appservice
}

/// The way that a join takes; `None` where a guest is kept out. A user
/// who is in the room has joined, whoever they are.
pub open spec fn join_path(facts: JoinFacts, servers: Seq<Seq<char>>, own: Seq<char>) -> Option<
    JoinPath,
> {
    if facts.is_joined {
        Some(JoinPath::AlreadyJoined)
    } else if is_guest(facts) && !facts.guest_can_join {
        None
    } else if facts.server_in_room || servers.len() == 0 || (servers.len() == 1 && servers[0]
        == own) {
        Some(JoinPath::Local)
    } else {
        Some(JoinPath::Remote)
    }
}

/// Decides which way a join takes.
///
/// A user who is in the room already has joined: the join succeeds and
/// nothing is done. Anyone else who counts as a guest is refused where the
/// room takes no guests. Otherwise the join is made here where this server
/// is in the room or no other server can be asked, and over federation
/// where not.
pub fn join_room_by_id_helper(facts: &JoinFacts, servers: &Vec<String>, own: &str) -> (r: Result<
    JoinPath,
    Error,
>)
    ensures
        facts.is_joined ==> r == Ok::<JoinPath, Error>(JoinPath::AlreadyJoined),
        r is Ok <==> join_path(*facts, views(servers@), own@) is Some,
        r matches Ok(path) ==> Some(path) == join_path(*facts, views(servers@), own@),
        r matches Err(e) ==> e.is(
            ErrorKind::Forbidden,
            "Guests are not allowed to join this room"@,
        ),
{
    if facts.is_joined {
        return Ok(JoinPath::AlreadyJoined);
    }
    let guest = facts.user_is_deactivated && !facts.is_appservice;
    if guest && !facts.guest_can_join {
        return Err(Error::new(ErrorKind::Forbidden, "Guests are not allowed to join this room"));
    }
    if facts.server_in_room || servers.len() == 0 {
        return Ok(JoinPath::Local);
    }
    assert(views(servers@)[0] == servers@[0]@);
    if servers.len() == 1 && servers[0] == own.to_owned() {
        return Ok(JoinPath::Local);
    }
    Ok(JoinPath::Remote)
}

/// A user who is in the room already joins it with success and without
/// anything being done.
pub proof fn lemma_join_when_joined(facts: JoinFacts, servers: Seq<Seq<char>>, own: Seq<char>)
    requires
        facts.is_joined,
    ensures
        join_path(facts, servers, own) == Some(JoinPath::AlreadyJoined),
{
}

/// A condition under which a restricted room lets a user in.
#[derive(Debug)]
pub enum AllowRule {
    /// The user is a member of this room.
    RoomMembership(String),
    /// A condition of a kind that this server does not know.
    Other,
}

/// Who may join a room.
#[derive(Debug)]
pub enum JoinRule {
    Public,
    Invite,
    Knock,
    Private,
    /// Members of the rooms named in the conditions, and the invited.
    Restricted(Vec<AllowRule>),
    /// As `Restricted`, and users may knock.
    KnockRestricted(Vec<AllowRule>),
}

/// The rooms named in the conditions: the rooms whose members may join.
pub open spec fn rooms_allowed(allow: Seq<AllowRule>) -> Seq<Seq<char>>
    decreases allow.len(),
{
    if allow.len() == 0 {
        Seq::empty()
    } else {
        match allow.last() {
            AllowRule::RoomMembership(room) => rooms_allowed(allow.drop_last()).push(room@),
            AllowRule::Other => rooms_allowed(allow.drop_last()),
        }
    }
}

/// The restriction rooms of a room: the rooms whose members may join it. Only a
/// restricted room has any.
pub open spec fn gate_rooms(rule: Option<JoinRule>) -> Seq<Seq<char>> {
    match rule {
        Some(JoinRule::Restricted(allow)) => rooms_allowed(allow@),
        Some(JoinRule::KnockRestricted(allow)) => rooms_allowed(allow@),
        _ => Seq::empty(),
    }
}

fn allowed_rooms(allow: &Vec<AllowRule>) -> (r: Vec<String>)
    ensures
        views(r@) == rooms_allowed(allow@),
{
    let mut r: Vec<String> = Vec::new();
    let mut i: usize = 0;
    assert(allow@.subrange(0, 0) =~= Seq::<AllowRule>::empty());
    assert(views(r@) =~= Seq::empty());
    while i < allow.len()
        invariant
            i <= allow.len(),
            views(r@) == rooms_allowed(allow@.subrange(0, i as int)),
        decreases allow.len() - i,
    {
        proof {
            assert(allow@.subrange(0, i + 1).drop_last() =~= allow@.subrange(0, i as int));
            assert(allow@.subrange(0, i + 1).last() == allow@[i as int]);
        }
        match &allow[i] {
            AllowRule::RoomMembership(room) => {
                let ghost before = views(r@);
                r.push(room.clone());
                assert(views(r@) =~= before.push(room@));
            },
            AllowRule::Other => {},
        }
        i = i + 1;
    }
    assert(allow@.subrange(0, allow.len() as int) =~= allow@);
    r
}

/// The restriction rooms that the join rules of a room name. `None` stands for a
/// room without join rules.
pub fn restriction_rooms(rule: &Option<JoinRule>) -> (r: Vec<String>)
    ensures
        views(r@) == gate_rooms(*rule),
{
    match rule {
        Some(JoinRule::Restricted(allow)) => allowed_rooms(allow),
        Some(JoinRule::KnockRestricted(allow)) => allowed_rooms(allow),
        _ => {
            let r: Vec<String> = Vec::new();
            assert(views(r@) =~= Seq::empty());
            r
        },
    }
}

/// A local member of the room, with whether they may invite the user.
#[derive(Debug)]
pub struct LocalMember {
    pub user_id: String,
    pub can_invite: bool,
}

/// Whether `i` is the position of the first member who may invite.
pub open spec fn first_inviter(members: Seq<LocalMember>, i: int) -> bool {
    &&& 0 <= i < members.len()
    &&& members[i].can_invite
    &&& forall|j: int| 0 <= j < i ==> !members[j].can_invite
}

/// The user whose server vouches for a restricted join: where the joining
/// user is in one of the restriction rooms, the first local member who may invite
/// them.
pub open spec fn authorizer(in_gate_room: Seq<bool>, members: Seq<LocalMember>) -> Option<
    Seq<char>,
> {
    if in_gate_room.contains(true) && exists|i: int| first_inviter(members, i) {
        Some(members[choose|i: int| first_inviter(members, i)].user_id@)
    } else {
        None
    }
}

/// Picks the user who authorises a restricted join. `in_gate_room` says
/// for each restriction room whether the joining user is in it; `members` are the
/// local members of the room, in order.
pub fn select_authorizer(in_gate_room: &Vec<bool>, members: &Vec<LocalMember>) -> (r: Option<
    String,
>)
    ensures
        opt_view(r) == authorizer(in_gate_room@, members@),
{
    let mut in_any = false;
    let mut g: usize = 0;
    while g < in_gate_room.len() && !in_any
        invariant
            g <= in_gate_room.len(),
            !in_any ==> forall|j: int| 0 <= j < g ==> !in_gate_room@[j],
            in_any ==> in_gate_room@.contains(true),
        decreases in_gate_room.len() - g + if in_any {
            0int
        } else {
            1int
        },
    {
        if in_gate_room[g] {
            in_any = true;
        } else {
            g = g + 1;
        }
    }
    if !in_any {
        return None;
    }
    let mut i: usize = 0;
    while i < members.len()
        invariant
            i <= members.len(),
            in_gate_room@.contains(true),
            forall|j: int| 0 <= j < i ==> !members@[j].can_invite,
        decreases members.len() - i,
    {
        if members[i].can_invite {
            proof {
                assert(first_inviter(members@, i as int));
                let c = choose|c: int| first_inviter(members@, c);
                if c < i {
                    assert(!members@[c].can_invite);
                } else if i < c {
                    assert(!members@[i as int].can_invite);
                }
            }
            return Some(members[i].user_id.clone());
        }
        i = i + 1;
    }
    proof {
        if exists|c: int| first_inviter(members@, c) {
            let c = choose|c: int| first_inviter(members@, c);
            assert(!members@[c].can_invite);
        }
    }
    None
}

/// Whether a join that could not be made here is tried over federation:
/// the room has restriction rooms, and some candidate is another server.
pub open spec fn tries_federation(gates: Seq<Seq<char>>, servers: Seq<Seq<char>>, own: Seq<char>)
    -> bool {
    gates.len() > 0 && exists|i: int| 0 <= i < servers.len() && servers[i] != own
}

/// Decides what follows a join event that could not be appended here. A
/// restricted room may still let the user in through another server; any
/// other room does not, and the join fails as it did here.
///
/// Returns whether federation is tried.
pub fn local_join_failed(gates: &Vec<String>, servers: &Vec<String>, own: &str) -> (r: bool)
    ensures
        r == tries_federation(views(gates@), views(servers@), own@),
{
    if gates.len() == 0 {
        return false;
    }
    let own_name = own.to_owned();
    let mut i: usize = 0;
    while i < servers.len()
        invariant
            i <= servers.len(),
            own_name@ == own@,
            gates@.len() > 0,
            forall|j: int| 0 <= j < i ==> views(servers@)[j] == own@,
        decreases servers.len() - i,
    {
        assert(views(servers@)[i as int] == servers@[i as int]@);
        if servers[i] != own_name {
            return true;
        }
        i = i + 1;
    }
    false
}

/// What the peer's answer to a restricted join comes to.
pub open spec fn restricted_join_answer(
    signed_event: Option<Seq<char>>,
    our_id: Seq<char>,
    version: RoomVersion,
) -> Result<(Seq<char>, Map<Seq<char>, Seq<char>>), Option<Seq<char>>> {
    match signed_event {
        None => Err(None),
        Some(text) => match event_id_and_members(text, version) {
            None => Err(Some("Could not convert event to canonical json."@)),
            Some((id, members)) => if id != our_id {
                Err(Some("Server sent event with wrong event id"@))
            } else {
                Ok((id, members))
            },
        },
    }
}

/// Takes the event that a peer signed for a restricted join that could not
/// be made here. The event must have the id of the event that was
/// submitted; it is then handled like any event that arrives. Where the
/// peer sent no event back, the join fails as it did here.
pub fn accept_restricted_join(
    signed_event: &Option<String>,
    event_id: &str,
    version: RoomVersion,
    local_error: Error,
) -> (r: Result<(String, JsonObject), Error>)
    ensures
        match restricted_join_answer(opt_view(*signed_event), event_id@, version) {
            Ok((id, members)) => r matches Ok(p) && p.0@ == id && p.1@ == members && p.1.wf(),
            Err(Some(message)) => r matches Err(e) && e.is(ErrorKind::BadServerResponse, message),
            Err(None) => r matches Err(e) && e.is(local_error.kind, local_error.message@),
        },
{
    let raw = match signed_event {
        Some(t) => t,
        None => {
            return Err(local_error);
        },
    };
    let (id, value) = match gen_event_id_canonical_json(raw.as_str(), version) {
        Some(p) => p,
        None => {
            return Err(
                Error::new(ErrorKind::BadServerResponse, "Could not convert event to canonical json."),
            );
        },
    };
    if id != event_id.to_owned() {
        return Err(Error::new(ErrorKind::BadServerResponse, "Server sent event with wrong event id"));
    }
    Ok((id, value))
}

} // verus!
