//! Leaving a room: by an event appended here where this server takes part
//! in the room, and over federation where it does not.

use crate::error::{Error, ErrorKind};
use crate::membership::content::{leave_content, Content, MemberContent, MembershipState};
use crate::membership::join_event::{
    convert_to_outgoing_federation_event, outgoing_event, prepare_leave_event, prepared_leave,
    select_room_version, usable_version,
};
use crate::membership::servers::sender_servers;
use crate::ids::valid_user_id;
use crate::room_version::RoomVersion;
use crate::signing::SigningKey;
use crate::text::{contains_string, opt_view, server_name_of, views};
use vstd::prelude::*;

verus! {

/// How a user leaves a room.
#[derive(Debug)]
pub enum LeavePlan {
    /// This server is not in the room: a server that is gets asked, and
    /// whatever comes of it, the user's invite is dropped and the user is
    /// marked as having left.
    Remote,
    /// This server is in the room and the room has no membership event for
    /// the user: the user is marked as having left, and nothing is sent.
    FixMembership,
    /// The event with this content is appended.
    Append(MemberContent),
}

/// Plans how a user leaves a room. `member_event` is the content of the
/// user's membership event in the room, if there is one.
pub fn leave_room(server_in_room: bool, member_event: Option<&MemberContent>, reason: Option<String>)
    -> (plan: LeavePlan)
    ensures
        !server_in_room ==> plan is Remote,
        server_in_room && member_event is None ==> plan is FixMembership,
        server_in_room && member_event is Some ==> (plan matches LeavePlan::Append(content)
            && content@ == (Content {
            membership: MembershipState::Leave,
            reason: opt_view(reason),
            ..member_event->0@
        })),
{
    if !server_in_room {
        return LeavePlan::Remote;
    }
    match member_event {
        Some(event) => LeavePlan::Append(leave_content(event, reason)),
        None => LeavePlan::FixMembership,
    }
}

/// What is done once leaving over federation has ended.
#[derive(Debug)]
pub struct LeaveCompletion {
    /// The membership that the user is given here.
    pub membership: MembershipState,
    /// Whether the user's invite is dropped.
    pub drop_invite: bool,
    /// Why the other servers could not help, if they could not: it is
    /// logged and not told to the user.
    pub warning: Option<Error>,
}

/// Says what is done once leaving over federation has ended. However it
/// ended, the user's invite is dropped and the user is marked as having
/// left: other servers cannot be relied on. A failure is only logged.
pub fn remote_leave_completed(outcome: Result<(), Error>) -> (c: LeaveCompletion)
    ensures
        c.membership == MembershipState::Leave,
        c.drop_invite,
        c.warning == match outcome {
            Ok(_) => None::<Error>,
            Err(e) => Some(e),
        },
{
    LeaveCompletion {
        membership: MembershipState::Leave,
        drop_invite: true,
        warning: match outcome {
            Ok(_) => None,
            Err(e) => Some(e),
        },
    }
}

/// The elements of `list` added to `seen`, each once, in the order in
/// which they are first met.
pub open spec fn distinct_after(seen: Seq<Seq<char>>, list: Seq<Seq<char>>) -> Seq<Seq<char>>
    decreases list.len(),
{
    if list.len() == 0 {
        seen
    } else {
        let earlier = distinct_after(seen, list.drop_last());
        if earlier.contains(list.last()) {
            earlier
        } else {
            earlier.push(list.last())
        }
    }
}

fn add_distinct(seen: &mut Vec<String>, list: &Vec<String>)
    ensures
        views(final(seen)@) == distinct_after(views(old(seen)@), views(list@)),
{
    let ghost start = views(seen@);
    let ghost all = views(list@);
    let mut i: usize = 0;
    assert(all.subrange(0, 0) =~= Seq::<Seq<char>>::empty());
    while i < list.len()
        invariant
            i <= list.len(),
            all == views(list@),
            views(seen@) == distinct_after(start, all.subrange(0, i as int)),
        decreases list.len() - i,
    {
        proof {
            assert(all.subrange(0, i + 1).drop_last() =~= all.subrange(0, i as int));
            assert(all.subrange(0, i + 1).last() == list@[i as int]@);
        }
        if !contains_string(seen, &list[i]) {
            let ghost before = views(seen@);
            seen.push(list[i].clone());
            assert(views(seen@) =~= before.push(list@[i as int]@));
        }
        i = i + 1;
    }
    assert(all.subrange(0, list.len() as int) =~= all);
}

fn collect_sender_servers(senders: &Vec<Option<String>>) -> (r: Vec<String>)
    ensures
        views(r@) == sender_servers(senders@),
{
    let mut r: Vec<String> = Vec::new();
    let mut i: usize = 0;
    assert(senders@.subrange(0, 0) =~= Seq::<Option<String>>::empty());
    assert(views(r@) =~= Seq::empty());
    while i < senders.len()
        invariant
            i <= senders.len(),
            views(r@) == sender_servers(senders@.subrange(0, i as int)),
        decreases senders.len() - i,
    {
        proof {
            assert(senders@.subrange(0, i + 1).drop_last() =~= senders@.subrange(0, i as int));
            assert(senders@.subrange(0, i + 1).last() == senders@[i as int]);
        }
        match &senders[i] {
            Some(sender) => {
                if valid_user_id(sender.as_str()) {
                    match server_name_of(sender.as_str()) {
                        Some(server) => {
                            let ghost before = views(r@);
                            r.push(server);
                            assert(views(r@) =~= before.push(server@));
                        },
                        None => {},
                    }
                }
            },
            None => {},
        }
        i = i + 1;
    }
    assert(senders@.subrange(0, senders.len() as int) =~= senders@);
    r
}

/// The servers that are asked to help with leaving a room that this server
/// is not in: the servers through which the invite came and the servers of
/// those who sent it, each once. Only a user with an invite can leave such
/// a room. `invite_senders` holds the `sender` of each event of the invite.
pub fn remote_leave_servers(invite_senders: Option<&Vec<Option<String>>>, invite_via: &Vec<String>)
    -> (r: Result<Vec<String>, Error>)
    ensures
        r is Ok <==> invite_senders is Some,
        r matches Ok(servers) ==> views(servers@) == distinct_after(
            distinct_after(Seq::empty(), views(invite_via@)),
            sender_servers(invite_senders->0@),
        ),
        r matches Err(e) ==> e.is(ErrorKind::BadState, "User is not invited."@),
{
    let senders = match invite_senders {
        Some(s) => s,
        None => {
            return Err(Error::new(ErrorKind::BadState, "User is not invited."));
        },
    };
    let mut servers: Vec<String> = Vec::new();
    assert(views(servers@) =~= Seq::empty());
    add_distinct(&mut servers, invite_via);
    let from_senders = collect_sender_servers(senders);
    add_distinct(&mut servers, &from_senders);
    Ok(servers)
}

/// What stays the same while a user leaves over federation.
pub struct LeaveContext {
    /// The name of this server.
    pub server_name: String,
    /// The signing key of this server.
    pub key: SigningKey,
    /// The room versions that this server supports.
    pub supported: Vec<RoomVersion>,
    /// The servers to ask, in order.
    pub servers: Vec<String>,
}

/// What came of the last action.
#[derive(Debug)]
pub enum LeaveEvent {
    /// The server asked to prepare the leave failed.
    MakeLeaveFailed { error: Error },
    /// The server prepared this stub for this room version. `now` is the
    /// time in milliseconds.
    MakeLeaveDone { room_version: Option<String>, event: String, now: u64 },
    /// Submitting the leave failed.
    SendLeaveFailed { error: Error },
    /// The server accepted the leave.
    SendLeaveDone,
}

/// What is to be done next.
#[derive(Debug)]
pub enum LeaveAction {
    /// Ask the server at this position to prepare the leave.
    MakeLeave { server: usize },
    /// Submit the leave event to the server at this position.
    SendLeave { server: usize, event_id: String, pdu: String },
    /// The user has left.
    Done,
    /// Leaving has failed.
    Fail(Error),
}

/// A leave over federation under way.
#[derive(Debug)]
pub struct RemoteLeave {
    /// The position of the server asked last.
    pub asked: usize,
    /// Whether the leave event has been submitted.
    pub submitted: bool,
    /// Whether the leave has ended.
    pub finished: bool,
}

impl RemoteLeave {
    /// The server asked last is one of the servers.
    pub open spec fn wf(&self, ctx: &LeaveContext) -> bool {
        self.finished || self.asked < ctx.servers@.len()
    }

    /// Whether `event` can occur now.
    pub open spec fn expects(&self, event: &LeaveEvent) -> bool {
        !self.finished && match event {
            LeaveEvent::MakeLeaveFailed { .. } => !self.submitted,
            LeaveEvent::MakeLeaveDone { .. } => !self.submitted,
            LeaveEvent::SendLeaveFailed { .. } => self.submitted,
            LeaveEvent::SendLeaveDone => self.submitted,
        }
    }

    /// Whether `event` can occur now.
    pub fn event_expected(&self, event: &LeaveEvent) -> (r: bool)
        ensures
            r == self.expects(event),
    {
        !self.finished && match event {
            LeaveEvent::MakeLeaveFailed { .. } => !self.submitted,
            LeaveEvent::MakeLeaveDone { .. } => !self.submitted,
            LeaveEvent::SendLeaveFailed { .. } => self.submitted,
            LeaveEvent::SendLeaveDone => self.submitted,
        }
    }

    /// Begins: the first server is asked to prepare the leave. Without a
    /// server the leave fails at once.
    pub fn start(ctx: &LeaveContext) -> (r: (RemoteLeave, LeaveAction))
        ensures
            r.0.wf(ctx),
            ctx.servers@.len() > 0 ==> r.1 == (LeaveAction::MakeLeave { server: 0 })
                && !r.0.finished && !r.0.submitted && r.0.asked == 0,
            ctx.servers@.len() == 0 ==> r.0.finished && (r.1 matches LeaveAction::Fail(e) && e.is(
                ErrorKind::BadServerResponse,
                "No server available to assist in leaving."@,
            )),
    {
        if ctx.servers.len() == 0 {
            return (
                RemoteLeave { asked: 0, submitted: false, finished: true },
                LeaveAction::Fail(
                    Error::new(
                        ErrorKind::BadServerResponse,
                        "No server available to assist in leaving.",
                    ),
                ),
            );
        }
        (
            RemoteLeave { asked: 0, submitted: false, finished: false },
            LeaveAction::MakeLeave { server: 0 },
        )
    }

    fn fail(&mut self, error: Error) -> (a: LeaveAction)
        ensures
            final(self).finished,
            a == LeaveAction::Fail(error),
    {
        self.finished = true;
        LeaveAction::Fail(error)
    }

    /// One turn of the leave.
    ///
    /// - `make_leave` failed: the next server is asked; where none is
    ///   left, the leave fails as the last server did.
    /// - `make_leave` gave a stub: the room version must be supported; the
    ///   stub is given this server as its origin and the time, signed, and
    ///   submitted to the same server.
    /// - `send_leave` answered: the leave is done, or has failed.
    pub fn step(&mut self, ctx: &LeaveContext, event: LeaveEvent) -> (action: LeaveAction)
        requires
            old(self).wf(ctx),
            old(self).expects(&event),
        ensures
            final(self).wf(ctx),
            action is Fail || action is Done <==> final(self).finished,
            match event {
                LeaveEvent::MakeLeaveFailed { error } => if old(self).asked + 1
                    < ctx.servers@.len() {
                    &&& action == (LeaveAction::MakeLeave { server: (old(self).asked + 1) as usize })
                    &&& final(self).asked == old(self).asked + 1
                    &&& !final(self).submitted
                } else {
                    action == LeaveAction::Fail(error)
                },
                LeaveEvent::MakeLeaveDone { room_version, event, now } => match usable_version(
                    opt_view(room_version),
                    ctx.supported@,
                ) {
                    None => action matches LeaveAction::Fail(e) && e.is(
                        ErrorKind::BadServerResponse,
                        "Room version is not supported"@,
                    ),
                    Some(version) => match prepared_leave(
                        event@,
                        version,
                        ctx.server_name@,
                        ctx.key,
                        now,
                    ) {
                        Some((members, id)) if outgoing_event(members, version) is Some => {
                            &&& action matches LeaveAction::SendLeave { server, event_id, pdu }
                            &&& server == old(self).asked
                            &&& event_id@ == id
                            &&& Some(pdu@) == outgoing_event(members, version)
                            &&& final(self).submitted
                        },
                        _ => action matches LeaveAction::Fail(e) && e.is(
                            ErrorKind::BadServerResponse,
                            "Invalid make_leave event json received from server"@,
                        ),
                    },
                },
                LeaveEvent::SendLeaveFailed { error } => action == LeaveAction::Fail(error),
                LeaveEvent::SendLeaveDone => action is Done,
            },
    {
        match event {
            LeaveEvent::MakeLeaveFailed { error } => {
                let n = ctx.servers.len();
                if self.asked < n && self.asked + 1 < n {
                    self.asked = self.asked + 1;
                    LeaveAction::MakeLeave { server: self.asked }
                } else {
                    self.fail(error)
                }
            },
            LeaveEvent::MakeLeaveDone { room_version, event, now } => {
                let version = match select_room_version(&room_version, &ctx.supported) {
                    Ok(v) => v,
                    Err(e) => {
                        return self.fail(e);
                    },
                };
                let prepared = match prepare_leave_event(
                    event.as_str(),
                    version,
                    ctx.server_name.as_str(),
                    &ctx.key,
                    now,
                ) {
                    Ok(p) => p,
                    Err(e) => {
                        return self.fail(e);
                    },
                };
                match convert_to_outgoing_federation_event(&prepared.event, version) {
                    Some(pdu) => {
                        self.submitted = true;
                        LeaveAction::SendLeave {
                            server: self.asked,
                            event_id: prepared.event_id,
                            pdu,
                        }
                    },
                    None => self.fail(
                        Error::new(
                            ErrorKind::BadServerResponse,
                            "Invalid make_leave event json received from server",
                        ),
                    ),
                }
            },
            LeaveEvent::SendLeaveFailed { error } => self.fail(error),
            LeaveEvent::SendLeaveDone => {
                self.finished = true;
                LeaveAction::Done
            },
        }
    }
}

} // verus!
