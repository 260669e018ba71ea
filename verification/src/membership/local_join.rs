//! Joining a room that this server takes part in, one turn at a time.
//!
//! The join event is made here and appended. Where that fails in a
//! restricted room, another server may still be able to authorise the
//! join: it is asked as in a join over federation, and the event that it
//! signs is taken in like any event that arrives.

use crate::error::{Error, ErrorKind};
use crate::json::JsonObject;
use crate::membership::content::{join_content, join_content_of, MemberContent};
use crate::membership::join::{
    accept_restricted_join, authorizer, gate_rooms, local_join_failed, restricted_join_answer,
    restriction_rooms, select_authorizer, tries_federation, JoinRule, LocalMember,
};
use crate::membership::join_event::{outgoing_event, prepared_join, usable_version};
use crate::membership::make_join::{abort_message, incompatible_version, next_remote};
use crate::membership::remote_join::{JoinAction, JoinContext, JoinEvent, JoinPhase, RemoteJoin};
use crate::membership::validate::BadEventRatelimiter;
use crate::text::{opt_view, views};
use vstd::prelude::*;

verus! {

/// How far a local join has come.
#[derive(Clone, Copy, Debug, PartialEq, Eq, Structural)]
pub enum LocalPhase {
    /// The join event is being appended.
    Appending,
    /// Another server is being asked to prepare or accept the join.
    Federating,
    /// The event that the other server signed is being taken in.
    Handling,
    /// The join has ended, well or badly.
    Finished,
}

/// What came of the last action.
#[derive(Debug)]
pub enum LocalJoinEvent {
    /// The join event is appended.
    Appended,
    /// The join event could not be appended.
    AppendFailed { error: Error },
    /// The server asked to prepare the join failed, with this error code.
    MakeJoinFailed { code: String, error: Error },
    /// The server prepared this stub for this room version. `now` is the
    /// time in milliseconds.
    MakeJoinDone { room_version: Option<String>, event: String, now: u64 },
    /// Submitting the join failed.
    SendJoinFailed { error: Error },
    /// The server accepted the join, and perhaps sent our event back with
    /// its own signature.
    SendJoinDone { signed_event: Option<String> },
    /// The signed event could not be taken in.
    IncomingFailed { error: Error },
    /// The signed event is part of the room.
    IncomingHandled,
}

/// What is to be done next.
#[derive(Debug)]
pub enum LocalJoinAction {
    /// Build the join event with this content and append it.
    Append(MemberContent),
    /// Ask the candidate at this position to prepare the join.
    MakeJoin { server: usize },
    /// Submit the join event to the candidate at this position.
    SendJoin { server: usize, event_id: String, pdu: String },
    /// Give up the room's lock, fetch the signing keys for the event, and
    /// handle it as an event that arrives from the candidate at this
    /// position.
    HandleIncoming { server: usize, event_id: String, event: JsonObject },
    /// The user has joined.
    Done,
    /// The join has failed.
    Fail(Error),
}

/// A local join under way.
#[derive(Debug)]
pub struct LocalJoin {
    pub phase: LocalPhase,
    /// Whether the room names rooms whose members may join it.
    pub restricted: bool,
    /// Why the join event could not be appended.
    pub local_error: Option<Error>,
    /// The handshake with another server, once it is under way.
    pub remote: RemoteJoin,
}

impl LocalJoinEvent {
    /// Whether the event can occur in the given phases.
    pub open spec fn fits(&self, phase: LocalPhase, remote: JoinPhase) -> bool {
        match self {
            LocalJoinEvent::Appended => phase == LocalPhase::Appending,
            LocalJoinEvent::AppendFailed { .. } => phase == LocalPhase::Appending,
            LocalJoinEvent::MakeJoinFailed { .. } => phase == LocalPhase::Federating && remote
                == JoinPhase::Searching,
            LocalJoinEvent::MakeJoinDone { .. } => phase == LocalPhase::Federating && remote
                == JoinPhase::Searching,
            LocalJoinEvent::SendJoinFailed { .. } => phase == LocalPhase::Federating && remote
                == JoinPhase::Submitting,
            LocalJoinEvent::SendJoinDone { .. } => phase == LocalPhase::Federating && remote
                == JoinPhase::Submitting,
            LocalJoinEvent::IncomingFailed { .. } => phase == LocalPhase::Handling,
            LocalJoinEvent::IncomingHandled => phase == LocalPhase::Handling,
        }
    }
}

fn as_local(action: JoinAction) -> (a: LocalJoinAction)
    ensures
        match action {
            JoinAction::MakeJoin { server } => a == (LocalJoinAction::MakeJoin { server }),
            JoinAction::SendJoin { server, event_id, pdu } => a == (LocalJoinAction::SendJoin {
                server,
                event_id,
                pdu,
            }),
            JoinAction::Fail(e) => a == LocalJoinAction::Fail(e),
            _ => a is Fail,
        },
{
    match action {
        JoinAction::MakeJoin { server } => LocalJoinAction::MakeJoin { server },
        JoinAction::SendJoin { server, event_id, pdu } => LocalJoinAction::SendJoin {
            server,
            event_id,
            pdu,
        },
        JoinAction::Fail(e) => LocalJoinAction::Fail(e),
        _ => LocalJoinAction::Fail(Error::new(ErrorKind::Unknown, "Join went astray")),
    }
}

impl LocalJoin {
    /// What holds of a local join in each phase.
    pub open spec fn wf(&self, ctx: &JoinContext) -> bool {
        match self.phase {
            LocalPhase::Federating => self.remote.wf(ctx) && (self.remote.phase
                == JoinPhase::Searching || self.remote.phase == JoinPhase::Submitting)
                && self.local_error is Some,
            _ => true,
        }
    }

    /// Whether `event` can occur now.
    pub open spec fn expects(&self, event: &LocalJoinEvent) -> bool {
        event.fits(self.phase, self.remote.phase)
    }

    /// Whether `event` can occur now.
    pub fn event_expected(&self, event: &LocalJoinEvent) -> (r: bool)
        ensures
            r == self.expects(event),
    {
        let remote = self.remote.phase();
        match event {
            LocalJoinEvent::Appended => self.phase == LocalPhase::Appending,
            LocalJoinEvent::AppendFailed { .. } => self.phase == LocalPhase::Appending,
            LocalJoinEvent::MakeJoinFailed { .. } => self.phase == LocalPhase::Federating
                && remote == JoinPhase::Searching,
            LocalJoinEvent::MakeJoinDone { .. } => self.phase == LocalPhase::Federating && remote
                == JoinPhase::Searching,
            LocalJoinEvent::SendJoinFailed { .. } => self.phase == LocalPhase::Federating
                && remote == JoinPhase::Submitting,
            LocalJoinEvent::SendJoinDone { .. } => self.phase == LocalPhase::Federating && remote
                == JoinPhase::Submitting,
            LocalJoinEvent::IncomingFailed { .. } => self.phase == LocalPhase::Handling,
            LocalJoinEvent::IncomingHandled => self.phase == LocalPhase::Handling,
        }
    }

    /// Begins a local join: the join event is to be appended.
    ///
    /// Its content is the user's profile and the reason. In a restricted
    /// room, where the user is in one of the rooms that the join rules
    /// name, it also names the first local member who may invite the user:
    /// that member's server vouches for the join.
    ///
    /// `rule` are the join rules of the room; `in_restriction_room` says
    /// for each room that they name whether the user is in it; `members`
    /// are the local members of the room.
    pub fn start(
        ctx: &JoinContext,
        rule: &Option<JoinRule>,
        in_restriction_room: &Vec<bool>,
        members: &Vec<LocalMember>,
    ) -> (r: (LocalJoin, LocalJoinAction))
        ensures
            r.0.wf(ctx),
            r.0.phase == LocalPhase::Appending,
            r.0.restricted == (gate_rooms(*rule).len() > 0),
            r.1 matches LocalJoinAction::Append(content) && content@ == join_content_of(
                ctx.profile,
                opt_view(ctx.reason),
                authorizer(in_restriction_room@, members@),
            ),
    {
        let rooms = restriction_rooms(rule);
        let via = select_authorizer(in_restriction_room, members);
        let content = join_content(&ctx.profile, crate::text::clone_opt(&ctx.reason), via);
        let (remote, _) = RemoteJoin::start(ctx);
        (
            LocalJoin {
                phase: LocalPhase::Appending,
                restricted: rooms.len() > 0,
                local_error: None,
                remote,
            },
            LocalJoinAction::Append(content),
        )
    }

    fn fail(&mut self, error: Error) -> (a: LocalJoinAction)
        ensures
            final(self).phase == LocalPhase::Finished,
            a == LocalJoinAction::Fail(error),
    {
        self.phase = LocalPhase::Finished;
        LocalJoinAction::Fail(error)
    }

    fn append_failed(&mut self, ctx: &JoinContext, error: Error) -> (a: LocalJoinAction)
        requires
            old(self).phase == LocalPhase::Appending,
        ensures
            final(self).wf(ctx),
            ({
                let i = next_remote(views(ctx.servers@), ctx.server_name@, 0);
                if old(self).restricted && i < ctx.servers@.len() {
                    &&& a == (LocalJoinAction::MakeJoin { server: i as usize })
                    &&& final(self).phase == LocalPhase::Federating
                    &&& final(self).remote.phase == JoinPhase::Searching
                    &&& final(self).remote.asked == i
                    &&& final(self).local_error == Some(error)
                } else {
                    &&& a == LocalJoinAction::Fail(error)
                    &&& final(self).phase == LocalPhase::Finished
                }
            }),
    {
        if !self.restricted {
            return self.fail(error);
        }
        let (remote, action) = RemoteJoin::start(ctx);
        match action {
            JoinAction::MakeJoin { server } => {
                self.remote = remote;
                self.local_error = Some(error);
                self.phase = LocalPhase::Federating;
                LocalJoinAction::MakeJoin { server }
            },
            _ => self.fail(error),
        }
    }

    fn send_join_done(&mut self, ctx: &JoinContext, signed_event: Option<String>) -> (a:
        LocalJoinAction)
        requires
            old(self).wf(ctx),
            old(self).phase == LocalPhase::Federating,
            old(self).remote.phase == JoinPhase::Submitting,
        ensures
            final(self).wf(ctx),
            match restricted_join_answer(
                opt_view(signed_event),
                old(self).remote.prepared->0.event_id@,
                old(self).remote.version->0,
            ) {
                Ok((id, members)) => {
                    &&& a matches LocalJoinAction::HandleIncoming { server, event_id, event }
                    &&& server == old(self).remote.asked
                    &&& event_id@ == id
                    &&& event.wf()
                    &&& event@ == members
                    &&& final(self).phase == LocalPhase::Handling
                },
                Err(Some(message)) => {
                    &&& a matches LocalJoinAction::Fail(e)
                    &&& e.is(ErrorKind::BadServerResponse, message)
                    &&& final(self).phase == LocalPhase::Finished
                },
                Err(None) => {
                    &&& a matches LocalJoinAction::Fail(e)
                    &&& e.is(old(self).local_error->0.kind, old(self).local_error->0.message@)
                    &&& final(self).phase == LocalPhase::Finished
                },
            },
    {
        let local_error = match self.local_error.take() {
            Some(e) => e,
            None => Error::new(ErrorKind::Unknown, "Join failed"),
        };
        let version = match self.remote.version {
            Some(v) => v,
            None => {
                return self.fail(local_error);
            },
        };
        let answer = match &self.remote.prepared {
            Some(p) => accept_restricted_join(
                &signed_event,
                p.event_id.as_str(),
                version,
                local_error,
            ),
            None => Err(local_error),
        };
        match answer {
            Ok((event_id, event)) => {
                self.phase = LocalPhase::Handling;
                LocalJoinAction::HandleIncoming { server: self.remote.asked, event_id, event }
            },
            Err(e) => self.fail(e),
        }
    }

    /// One turn of the local join.
    ///
    /// - The join event is appended: the user has joined.
    /// - It could not be appended: in a restricted room with a candidate
    ///   that is another server, that server is asked to prepare the join;
    ///   otherwise the join fails as appending did.
    /// - `make_join` failed or gave a stub: as in a join over federation.
    /// - `send_join` answered: the event that the server sent back must
    ///   have the id of the event submitted, and is taken in as an event
    ///   that arrives; where the server sent none back, the join fails as
    ///   appending did.
    /// - The event is taken in: the user has joined.
    pub fn step(&mut self, ctx: &JoinContext, event: LocalJoinEvent) -> (action: LocalJoinAction)
        requires
            old(self).wf(ctx),
            old(self).expects(&event),
        ensures
            final(self).wf(ctx),
            action is Fail || action is Done <==> final(self).phase == LocalPhase::Finished,
            match event {
                LocalJoinEvent::Appended => action is Done,
                LocalJoinEvent::AppendFailed { error } => {
                    let i = next_remote(views(ctx.servers@), ctx.server_name@, 0);
                    if old(self).restricted && i < ctx.servers@.len() {
                        &&& action == (LocalJoinAction::MakeJoin { server: i as usize })
                        &&& final(self).local_error == Some(error)
                        &&& final(self).remote.asked == i
                    } else {
                        action == LocalJoinAction::Fail(error)
                    }
                },
                LocalJoinEvent::MakeJoinFailed { code, error } => {
                    let (counters, abort) = old(self).remote.search.counters.after_failure(
                        incompatible_version(code@),
                    );
                    match abort {
                        Some(reason) => action matches LocalJoinAction::Fail(e) && e.is(
                            ErrorKind::BadServerResponse,
                            abort_message(reason),
                        ),
                        None => {
                            let i = next_remote(
                                views(ctx.servers@),
                                ctx.server_name@,
                                old(self).remote.search.next as int,
                            );
                            if i < ctx.servers@.len() {
                                &&& action == (LocalJoinAction::MakeJoin { server: i as usize })
                                &&& final(self).remote.asked == i
                                &&& final(self).remote.search.counters == counters
                            } else {
                                action matches LocalJoinAction::Fail(e) && e.is(
                                    error.kind,
                                    error.message@,
                                )
                            }
                        },
                    }
                },
                LocalJoinEvent::MakeJoinDone { room_version, event, now } => match usable_version(
                    opt_view(room_version),
                    ctx.supported@,
                ) {
                    None => action matches LocalJoinAction::Fail(e) && e.is(
                        ErrorKind::BadServerResponse,
                        "Room version is not supported"@,
                    ),
                    Some(version) => match prepared_join(
                        event@,
                        version,
                        ctx.server_name@,
                        ctx.key,
                        now,
                        ctx.profile,
                        opt_view(ctx.reason),
                    ) {
                        Some((members, id, via)) if outgoing_event(members, version) is Some => {
                            &&& action matches LocalJoinAction::SendJoin { server, event_id, pdu }
                            &&& server == old(self).remote.asked
                            &&& event_id@ == id
                            &&& Some(pdu@) == outgoing_event(members, version)
                            &&& final(self).remote.version == Some(version)
                            &&& final(self).remote.prepared matches Some(p)
                            &&& p.event_id@ == id
                        },
                        _ => action matches LocalJoinAction::Fail(e) && e.is(
                            ErrorKind::BadServerResponse,
                            "Invalid make_join event json received from server"@,
                        ),
                    },
                },
                LocalJoinEvent::SendJoinFailed { error } => action == LocalJoinAction::Fail(error),
                LocalJoinEvent::SendJoinDone { signed_event } => match restricted_join_answer(
                    opt_view(signed_event),
                    old(self).remote.prepared->0.event_id@,
                    old(self).remote.version->0,
                ) {
                    Ok((id, members)) => {
                        &&& action matches LocalJoinAction::HandleIncoming {
                            server,
                            event_id,
                            event,
                        }
                        &&& server == old(self).remote.asked
                        &&& event_id@ == id
                        &&& event.wf()
                        &&& event@ == members
                    },
                    Err(Some(message)) => action matches LocalJoinAction::Fail(e) && e.is(
                        ErrorKind::BadServerResponse,
                        message,
                    ),
                    Err(None) => action matches LocalJoinAction::Fail(e) && e.is(
                        old(self).local_error->0.kind,
                        old(self).local_error->0.message@,
                    ),
                },
                LocalJoinEvent::IncomingFailed { error } => action == LocalJoinAction::Fail(error),
                LocalJoinEvent::IncomingHandled => action is Done,
            },
    {
        match event {
            LocalJoinEvent::Appended => {
                self.phase = LocalPhase::Finished;
                LocalJoinAction::Done
            },
            LocalJoinEvent::AppendFailed { error } => self.append_failed(ctx, error),
            LocalJoinEvent::MakeJoinFailed { code, error } => {
                let mut unused = BadEventRatelimiter::new();
                let action = self.remote.step(
                    ctx,
                    &mut unused,
                    JoinEvent::MakeJoinFailed { code, error },
                );
                let local = as_local(action);
                match &local {
                    LocalJoinAction::Fail(_) => {
                        self.phase = LocalPhase::Finished;
                    },
                    _ => {},
                }
                local
            },
            LocalJoinEvent::MakeJoinDone { room_version, event, now } => {
                let mut unused = BadEventRatelimiter::new();
                let action = self.remote.step(
                    ctx,
                    &mut unused,
                    JoinEvent::MakeJoinDone { room_version, event, now },
                );
                let local = as_local(action);
                match &local {
                    LocalJoinAction::Fail(_) => {
                        self.phase = LocalPhase::Finished;
                    },
                    _ => {},
                }
                local
            },
            LocalJoinEvent::SendJoinFailed { error } => self.fail(error),
            LocalJoinEvent::SendJoinDone { signed_event } => self.send_join_done(
                ctx,
                signed_event,
            ),
            LocalJoinEvent::IncomingFailed { error } => self.fail(error),
            LocalJoinEvent::IncomingHandled => {
                self.phase = LocalPhase::Finished;
                LocalJoinAction::Done
            },
        }
    }
}

/// Where another server is tried, some candidate is another server; and
/// the other way round in a restricted room.
pub proof fn lemma_federation_needs_candidate(
    rooms: Seq<Seq<char>>,
    servers: Seq<Seq<char>>,
    own: Seq<char>,
)
    ensures
        tries_federation(rooms, servers, own) <==> (rooms.len() > 0 && next_remote(servers, own, 0)
            < servers.len()),
{
    lemma_next_remote(servers, own, 0);
}

proof fn lemma_next_remote(servers: Seq<Seq<char>>, own: Seq<char>, from: int)
    requires
        0 <= from,
    ensures
        from <= next_remote(servers, own, from) || next_remote(servers, own, from)
            == servers.len(),
        next_remote(servers, own, from) <= servers.len(),
        next_remote(servers, own, from) < servers.len() ==> servers[next_remote(
            servers,
            own,
            from,
        )] != own,
        forall|j: int| from <= j < next_remote(servers, own, from) ==> servers[j] == own,
    decreases servers.len() - from,
{
    if from < servers.len() && servers[from] == own {
        lemma_next_remote(servers, own, from + 1);
    }
}

} // verus!
