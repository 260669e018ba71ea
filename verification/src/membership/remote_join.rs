//! Joining a room over federation, one turn at a time.
//!
//! The join asks the candidate servers to prepare a join event
//! (`make_join`), fills the stub in, signs it and submits it to the server
//! that prepared it (`send_join`), checks the state that comes back, has
//! that state stored as the state before the join, has the join authorised
//! against it, and only then has the join event appended.
//!
//! Whoever drives the join performs what `step` returns and hands back
//! what came of it.

use crate::assoc::AssocMap;
use crate::error::{Error, ErrorKind};
use crate::json::JsonObject;
use crate::membership::content::Profile;
use crate::membership::import::{
    import_all, import_events, outlier_views, Imported, Outlier,
};
use crate::membership::join_event::{
    convert_to_outgoing_federation_event, graft_outcome, graft_remote_signature,
    outgoing_event, prepare_join_event, prepared_join, select_room_version, usable_version,
    PreparedEvent,
};
use crate::membership::make_join::{
    abort_message, incompatible_version, next_remote, MakeJoin, MakeJoinAction,
};
use crate::membership::validate::BadEventRatelimiter;
use crate::pdu::{pdu_of, PduEvent};
use crate::room_version::RoomVersion;
use crate::signing::{key_views, PublicKey, SigningKey};
use crate::state::resolve::{id_views, StateMap};
use crate::text::{opt_view, views};
use vstd::prelude::*;

verus! {

/// What stays the same during a join.
pub struct JoinContext {
    /// The name of this server.
    pub server_name: String,
    /// The signing key of this server.
    pub key: SigningKey,
    /// The room versions that this server supports.
    pub supported: Vec<RoomVersion>,
    /// The candidate servers, in the order in which they are asked.
    pub servers: Vec<String>,
    /// The profile of the joining user.
    pub profile: Profile,
    /// The reason given for the join.
    pub reason: Option<String>,
}

/// How far a join has come.
#[derive(Clone, Copy, Debug, PartialEq, Eq, Structural)]
pub enum JoinPhase {
    /// A server has been asked to prepare the join.
    Searching,
    /// The signed join event has been submitted.
    Submitting,
    /// The signing keys for the returned state are being fetched.
    Importing,
    /// The returned state is being stored as the state before the join.
    Storing,
    /// The join is being authorised against that state.
    Authorizing,
    /// The join event is being appended.
    Persisting,
    /// The join has ended, well or badly.
    Finished,
}

/// What came of the last action.
#[derive(Debug)]
pub enum JoinEvent {
    /// The server asked to prepare the join failed, with this error code.
    MakeJoinFailed { code: String, error: Error },
    /// The server prepared this stub for this room version. `now` is the
    /// time in milliseconds.
    MakeJoinDone { room_version: Option<String>, event: String, now: u64 },
    /// Submitting the join failed.
    SendJoinFailed { error: Error },
    /// The server accepted the join and sent the state of the room, its
    /// auth chain, and perhaps our event with its own signature.
    SendJoinDone { signed_event: Option<String>, state: Vec<String>, auth_chain: Vec<String> },
    /// The signing keys could not be fetched.
    KeysFailed { error: Error },
    /// The signing keys are here. `now` is the time in milliseconds.
    KeysFetched { keys: Vec<PublicKey>, now: u64 },
    /// The state before the join could not be stored.
    StoreFailed { error: Error },
    /// The state before the join is stored.
    StateStored,
    /// The authorisation check has run; `None` where it could not decide.
    AuthChecked { passed: Option<bool> },
    /// Appending the join event failed.
    PersistFailed { error: Error },
    /// The join event is appended.
    Persisted,
}

/// What is to be done next.
#[derive(Debug)]
pub enum JoinAction {
    /// Ask the candidate at this position to prepare the join.
    MakeJoin { server: usize },
    /// Submit the join event to the candidate at this position.
    SendJoin { server: usize, event_id: String, pdu: String },
    /// Fetch the signing keys of the servers named in the returned state.
    FetchKeys,
    /// Store the outliers, and the state as the state of the room before
    /// the join.
    StoreState { outliers: Vec<Outlier>, state: StateMap },
    /// Check the join event against the state that was stored.
    AuthCheck,
    /// Append the join event, which moves the room to the state after the
    /// join.
    Persist { event_id: String, event: JsonObject },
    /// The user has joined.
    Done,
    /// The join has failed.
    Fail(Error),
}

/// A join over federation under way.
#[derive(Debug)]
pub struct RemoteJoin {
    pub phase: JoinPhase,
    pub search: MakeJoin,
    /// The position of the candidate asked last.
    pub asked: usize,
    pub version: Option<RoomVersion>,
    pub prepared: Option<PreparedEvent>,
    /// The state events that the peer returned.
    pub state: Vec<String>,
    /// The auth chain that the peer returned.
    pub auth_chain: Vec<String>,
}

impl JoinEvent {
    /// The phase in which the event can occur.
    pub open spec fn phase(&self) -> JoinPhase {
        match self {
            JoinEvent::MakeJoinFailed { .. } => JoinPhase::Searching,
            JoinEvent::MakeJoinDone { .. } => JoinPhase::Searching,
            JoinEvent::SendJoinFailed { .. } => JoinPhase::Submitting,
            JoinEvent::SendJoinDone { .. } => JoinPhase::Submitting,
            JoinEvent::KeysFailed { .. } => JoinPhase::Importing,
            JoinEvent::KeysFetched { .. } => JoinPhase::Importing,
            JoinEvent::StoreFailed { .. } => JoinPhase::Storing,
            JoinEvent::StateStored => JoinPhase::Storing,
            JoinEvent::AuthChecked { .. } => JoinPhase::Authorizing,
            JoinEvent::PersistFailed { .. } => JoinPhase::Persisting,
            JoinEvent::Persisted => JoinPhase::Persisting,
        }
    }
}

impl RemoteJoin {
    /// What holds of a join in each phase.
    pub open spec fn wf(&self, ctx: &JoinContext) -> bool {
        match self.phase {
            JoinPhase::Searching => self.search.wf() && self.asked < ctx.servers@.len(),
            JoinPhase::Finished => true,
            _ => {
                &&& self.asked < ctx.servers@.len()
                &&& self.version is Some
                &&& self.prepared matches Some(p)
                &&& p.event.wf()
            },
        }
    }

    /// Whether `event` can occur now.
    pub open spec fn expects(&self, event: &JoinEvent) -> bool {
        self.phase == event.phase()
    }

    /// How far the join has come.
    pub fn phase(&self) -> (p: JoinPhase)
        ensures
            p == self.phase,
    {
        self.phase
    }

    /// Whether `event` can occur now.
    pub fn event_expected(&self, event: &JoinEvent) -> (r: bool)
        ensures
            r == self.expects(event),
    {
        let phase = match event {
            JoinEvent::MakeJoinFailed { .. } => JoinPhase::Searching,
            JoinEvent::MakeJoinDone { .. } => JoinPhase::Searching,
            JoinEvent::SendJoinFailed { .. } => JoinPhase::Submitting,
            JoinEvent::SendJoinDone { .. } => JoinPhase::Submitting,
            JoinEvent::KeysFailed { .. } => JoinPhase::Importing,
            JoinEvent::KeysFetched { .. } => JoinPhase::Importing,
            JoinEvent::StoreFailed { .. } => JoinPhase::Storing,
            JoinEvent::StateStored => JoinPhase::Storing,
            JoinEvent::AuthChecked { .. } => JoinPhase::Authorizing,
            JoinEvent::PersistFailed { .. } => JoinPhase::Persisting,
            JoinEvent::Persisted => JoinPhase::Persisting,
        };
        self.phase == phase
    }

    fn finished() -> (j: RemoteJoin)
        ensures
            j.phase == JoinPhase::Finished,
    {
        RemoteJoin {
            phase: JoinPhase::Finished,
            search: MakeJoin::new(),
            asked: 0,
            version: None,
            prepared: None,
            state: Vec::new(),
            auth_chain: Vec::new(),
        }
    }

    /// Begins a join: the first candidate that is not this server is asked
    /// to prepare it. Without such a candidate the join fails at once.
    pub fn start(ctx: &JoinContext) -> (r: (RemoteJoin, JoinAction))
        ensures
            r.0.wf(ctx),
            ({
                let i = next_remote(views(ctx.servers@), ctx.server_name@, 0);
                if i < ctx.servers@.len() {
                    &&& r.1 == (JoinAction::MakeJoin { server: i as usize })
                    &&& r.0.phase == JoinPhase::Searching
                    &&& r.0.asked == i
                } else {
                    &&& r.1 matches JoinAction::Fail(e)
                    &&& e.is(
                        ErrorKind::BadServerResponse,
                        "No server available to assist in joining."@,
                    )
                    &&& r.0.phase == JoinPhase::Finished
                }
            }),
    {
        let mut search = MakeJoin::new();
        match search.advance(&ctx.servers, ctx.server_name.as_str()) {
            MakeJoinAction::Ask(i) => (
                RemoteJoin {
                    phase: JoinPhase::Searching,
                    search,
                    asked: i,
                    version: None,
                    prepared: None,
                    state: Vec::new(),
                    auth_chain: Vec::new(),
                },
                JoinAction::MakeJoin { server: i },
            ),
            MakeJoinAction::Fail(e) => (RemoteJoin::finished(), JoinAction::Fail(e)),
        }
    }

    fn fail(&mut self, error: Error) -> (a: JoinAction)
        ensures
            *final(self) == (RemoteJoin { phase: JoinPhase::Finished, ..*old(self) }),
            a == JoinAction::Fail(error),
    {
        self.phase = JoinPhase::Finished;
        JoinAction::Fail(error)
    }

    fn make_join_failed(&mut self, ctx: &JoinContext, code: String, error: Error) -> (a:
        JoinAction)
        requires
            old(self).wf(ctx),
            old(self).phase == JoinPhase::Searching,
        ensures
            final(self).wf(ctx),
            ({
                let (counters, abort) = old(self).search.counters.after_failure(
                    incompatible_version(code@),
                );
                match abort {
                    Some(reason) => {
                        &&& a matches JoinAction::Fail(e)
                        &&& e.is(ErrorKind::BadServerResponse, abort_message(reason))
                        &&& final(self).phase == JoinPhase::Finished
                    },
                    None => {
                        let i = next_remote(
                            views(ctx.servers@),
                            ctx.server_name@,
                            old(self).search.next as int,
                        );
                        if i < ctx.servers@.len() {
                            &&& a == (JoinAction::MakeJoin { server: i as usize })
                            &&& final(self).phase == JoinPhase::Searching
                            &&& final(self).asked == i
                            &&& final(self).search.counters == counters
                        } else {
                            &&& a matches JoinAction::Fail(e)
                            &&& e.is(error.kind, error.message@)
                            &&& final(self).phase == JoinPhase::Finished
                        }
                    },
                }
            }),
    {
        match self.search.failed(code.as_str(), error, &ctx.servers, ctx.server_name.as_str()) {
            MakeJoinAction::Ask(i) => {
                self.asked = i;
                JoinAction::MakeJoin { server: i }
            },
            MakeJoinAction::Fail(e) => self.fail(e),
        }
    }

    fn make_join_done(
        &mut self,
        ctx: &JoinContext,
        room_version: Option<String>,
        event: String,
        now: u64,
    ) -> (a: JoinAction)
        requires
            old(self).wf(ctx),
            old(self).phase == JoinPhase::Searching,
        ensures
            final(self).wf(ctx),
            final(self).asked == old(self).asked,
            match usable_version(opt_view(room_version), ctx.supported@) {
                None => {
                    &&& a matches JoinAction::Fail(e)
                    &&& e.is(ErrorKind::BadServerResponse, "Room version is not supported"@)
                    &&& final(self).phase == JoinPhase::Finished
                },
                Some(version) => match prepared_join(
                    event@,
                    version,
                    ctx.server_name@,
                    ctx.key,
                    now,
                    ctx.profile,
                    opt_view(ctx.reason),
                ) {
                    Some((members, id, via)) if outgoing_event(members, version) is Some => {
                        &&& a matches JoinAction::SendJoin { server, event_id, pdu }
                        &&& server == old(self).asked
                        &&& event_id@ == id
                        &&& Some(pdu@) == outgoing_event(members, version)
                        &&& final(self).phase == JoinPhase::Submitting
                        &&& final(self).version == Some(version)
                        &&& final(self).prepared matches Some(p)
                        &&& p.event@ == members
                        &&& p.event_id@ == id
                        &&& opt_view(p.authorized_via) == via
                    },
                    _ => {
                        &&& a matches JoinAction::Fail(e)
                        &&& e.is(
                            ErrorKind::BadServerResponse,
                            "Invalid make_join event json received from server"@,
                        )
                        &&& final(self).phase == JoinPhase::Finished
                    },
                },
            },
    {
        let version = match select_room_version(&room_version, &ctx.supported) {
            Ok(v) => v,
            Err(e) => {
                return self.fail(e);
            },
        };
        let prepared = match prepare_join_event(
            event.as_str(),
            version,
            ctx.server_name.as_str(),
            &ctx.key,
            now,
            &ctx.profile,
            crate::text::clone_opt(&ctx.reason),
        ) {
            Ok(p) => p,
            Err(e) => {
                return self.fail(e);
            },
        };
        let pdu = match convert_to_outgoing_federation_event(&prepared.event, version) {
            Some(text) => text,
            None => {
                return self.fail(
                    Error::new(
                        ErrorKind::BadServerResponse,
                        "Invalid make_join event json received from server",
                    ),
                );
            },
        };
        let event_id = prepared.event_id.clone();
        self.version = Some(version);
        self.prepared = Some(prepared);
        self.phase = JoinPhase::Submitting;
        JoinAction::SendJoin { server: self.asked, event_id, pdu }
    }

    fn send_join_done(
        &mut self,
        ctx: &JoinContext,
        signed_event: Option<String>,
        state: Vec<String>,
        auth_chain: Vec<String>,
    ) -> (a: JoinAction)
        requires
            old(self).wf(ctx),
            old(self).phase == JoinPhase::Submitting,
        ensures
            final(self).wf(ctx),
            ({
                let ours = old(self).prepared->0;
                match graft_outcome(
                    ours.event@,
                    ours.event_id@,
                    ours.authorized_via is Some,
                    old(self).version->0,
                    opt_view(signed_event),
                    ctx.servers@[old(self).asked as int]@,
                ) {
                    Err(message) => {
                        &&& a matches JoinAction::Fail(e)
                        &&& e.is(ErrorKind::BadServerResponse, message)
                        &&& final(self).phase == JoinPhase::Finished
                    },
                    Ok((members, _)) => if pdu_of(ours.event_id@, members) is Some {
                        &&& a is FetchKeys
                        &&& final(self).phase == JoinPhase::Importing
                        &&& final(self).version == old(self).version
                        &&& final(self).asked == old(self).asked
                        &&& final(self).prepared matches Some(p)
                        &&& p.event@ == members
                        &&& p.event_id@ == ours.event_id@
                        &&& views(final(self).state@) == views(state@)
                        &&& views(final(self).auth_chain@) == views(auth_chain@)
                    } else {
                        &&& a matches JoinAction::Fail(e)
                        &&& e.is(ErrorKind::BadServerResponse, "Invalid join event PDU"@)
                        &&& final(self).phase == JoinPhase::Finished
                    },
                }
            }),
    {
        let mut prepared = match self.prepared.take() {
            Some(p) => p,
            None => {
                return self.fail(Error::new(ErrorKind::Unknown, "No join event"));
            },
        };
        let version = match self.version {
            Some(v) => v,
            None => {
                return self.fail(Error::new(ErrorKind::Unknown, "No room version"));
            },
        };
        let authorized = prepared.authorized_via.is_some();
        match graft_remote_signature(
            &mut prepared.event,
            prepared.event_id.as_str(),
            authorized,
            version,
            &signed_event,
            ctx.servers[self.asked].as_str(),
        ) {
            Ok(_) => {},
            Err(e) => {
                return self.fail(e);
            },
        }
        if PduEvent::from_id_val(prepared.event_id.as_str(), &prepared.event).is_none() {
            return self.fail(Error::new(ErrorKind::BadServerResponse, "Invalid join event PDU"));
        }
        self.prepared = Some(prepared);
        self.state = state;
        self.auth_chain = auth_chain;
        self.phase = JoinPhase::Importing;
        JoinAction::FetchKeys
    }

    fn keys_fetched(
        &mut self,
        ctx: &JoinContext,
        bad_events: &mut BadEventRatelimiter,
        keys: Vec<PublicKey>,
        now: u64,
    ) -> (a: JoinAction)
        requires
            old(self).wf(ctx),
            old(self).phase == JoinPhase::Importing,
            old(bad_events).wf(),
        ensures
            final(self).wf(ctx),
            final(bad_events).wf(),
            ({
                let version = old(self).version->0;
                let nothing = Imported {
                    outliers: Seq::empty(),
                    state: Map::empty(),
                    bad_events: old(bad_events)@,
                    invalid: false,
                };
                let with_state = import_all(
                    nothing,
                    views(old(self).state@),
                    version,
                    key_views(keys@),
                    now,
                    true,
                );
                let with_chain = import_all(
                    with_state,
                    views(old(self).auth_chain@),
                    version,
                    key_views(keys@),
                    now,
                    false,
                );
                if with_state.invalid {
                    &&& a matches JoinAction::Fail(e)
                    &&& e.is(ErrorKind::BadServerResponse, "Invalid PDU in send_join response"@)
                    &&& final(self).phase == JoinPhase::Finished
                    &&& final(bad_events)@ == with_state.bad_events
                } else {
                    &&& a matches JoinAction::StoreState { outliers, state }
                    &&& outlier_views(outliers@) == with_chain.outliers
                    &&& state.wf()
                    &&& id_views(state.map()) == with_chain.state
                    &&& final(bad_events)@ == with_chain.bad_events
                    &&& final(self).phase == JoinPhase::Storing
                    &&& final(self).prepared == old(self).prepared
                    &&& final(self).version == old(self).version
                    &&& final(self).asked == old(self).asked
                }
            }),
    {
        let version = match self.version {
            Some(v) => v,
            None => {
                return self.fail(Error::new(ErrorKind::Unknown, "No room version"));
            },
        };
        let mut outliers: Vec<Outlier> = Vec::new();
        let mut state: StateMap = AssocMap::new();
        assert(outlier_views(outliers@) =~= Seq::empty());
        assert(id_views(state.map()) =~= Map::empty());
        match import_events(
            &self.state,
            version,
            &keys,
            bad_events,
            now,
            true,
            &mut outliers,
            &mut state,
        ) {
            Ok(_) => {},
            Err(e) => {
                return self.fail(e);
            },
        }
        proof {
            lemma_chain_never_invalid(
                Imported {
                    outliers: outlier_views(outliers@),
                    state: id_views(state.map()),
                    bad_events: bad_events@,
                    invalid: false,
                },
                views(self.auth_chain@),
                version,
                key_views(keys@),
                now,
            );
        }
        match import_events(
            &self.auth_chain,
            version,
            &keys,
            bad_events,
            now,
            false,
            &mut outliers,
            &mut state,
        ) {
            Ok(_) => {},
            Err(e) => {
                return self.fail(e);
            },
        }
        self.phase = JoinPhase::Storing;
        JoinAction::StoreState { outliers, state }
    }

    fn auth_checked(&mut self, ctx: &JoinContext, passed: Option<bool>) -> (a: JoinAction)
        requires
            old(self).wf(ctx),
            old(self).phase == JoinPhase::Authorizing,
        ensures
            final(self).wf(ctx),
            passed == Some(true) ==> {
                &&& a matches JoinAction::Persist { event_id, event }
                &&& event.wf()
                &&& event@ == old(self).prepared->0.event@
                &&& event_id@ == old(self).prepared->0.event_id@
                &&& final(self).phase == JoinPhase::Persisting
            },
            passed != Some(true) ==> {
                &&& a matches JoinAction::Fail(e)
                &&& e.is(ErrorKind::Forbidden, "Auth check failed"@)
                &&& final(self).phase == JoinPhase::Finished
            },
    {
        match passed {
            Some(true) => {},
            _ => {
                return self.fail(Error::new(ErrorKind::Forbidden, "Auth check failed"));
            },
        }
        match &self.prepared {
            Some(p) => {
                let event = p.event.duplicate();
                let event_id = p.event_id.clone();
                self.phase = JoinPhase::Persisting;
                JoinAction::Persist { event_id, event }
            },
            None => self.fail(Error::new(ErrorKind::Forbidden, "Auth check failed")),
        }
    }

    /// One turn of the join: takes what came of the last action and says
    /// what to do next.
    ///
    /// - `make_join` failed: the next candidate is asked, unless a limit is
    ///   reached or none is left.
    /// - `make_join` gave a stub: the room version must be supported; the
    ///   stub is filled in, signed and submitted to the same server.
    /// - `send_join` answered: the countersignature of a restricted join
    ///   is taken in, and the signing keys are fetched.
    /// - The keys are here: the returned state and auth chain are checked
    ///   event by event; what passes is handed on to be stored as the state
    ///   before the join.
    /// - The state is stored: the join event is checked against it.
    /// - The check has run: only a join that passed is appended.
    /// - Any failure of an action ends the join with that failure.
    pub fn step(
        &mut self,
        ctx: &JoinContext,
        bad_events: &mut BadEventRatelimiter,
        event: JoinEvent,
    ) -> (action: JoinAction)
        requires
            old(self).wf(ctx),
            old(self).expects(&event),
            old(bad_events).wf(),
        ensures
            final(self).wf(ctx),
            final(bad_events).wf(),
            final(self).phase == match action {
                JoinAction::MakeJoin { .. } => JoinPhase::Searching,
                JoinAction::SendJoin { .. } => JoinPhase::Submitting,
                JoinAction::FetchKeys => JoinPhase::Importing,
                JoinAction::StoreState { .. } => JoinPhase::Storing,
                JoinAction::AuthCheck => JoinPhase::Authorizing,
                JoinAction::Persist { .. } => JoinPhase::Persisting,
                JoinAction::Done => JoinPhase::Finished,
                JoinAction::Fail(_) => JoinPhase::Finished,
            },
            action is Persist ==> event == (JoinEvent::AuthChecked { passed: Some(true) }),
            !(event is KeysFetched) ==> final(bad_events)@ == old(bad_events)@,
            match event {
                JoinEvent::MakeJoinFailed { code, error } => {
                    let (counters, abort) = old(self).search.counters.after_failure(
                        incompatible_version(code@),
                    );
                    match abort {
                        Some(reason) => action matches JoinAction::Fail(e) && e.is(
                            ErrorKind::BadServerResponse,
                            abort_message(reason),
                        ),
                        None => {
                            let i = next_remote(
                                views(ctx.servers@),
                                ctx.server_name@,
                                old(self).search.next as int,
                            );
                            if i < ctx.servers@.len() {
                                &&& action == (JoinAction::MakeJoin { server: i as usize })
                                &&& final(self).asked == i
                                &&& final(self).search.counters == counters
                            } else {
                                action matches JoinAction::Fail(e) && e.is(
                                    error.kind,
                                    error.message@,
                                )
                            }
                        },
                    }
                },
                JoinEvent::MakeJoinDone { room_version, event, now } => match usable_version(
                    opt_view(room_version),
                    ctx.supported@,
                ) {
                    None => action matches JoinAction::Fail(e) && e.is(
                        ErrorKind::BadServerResponse,
                        "Room version is not supported"@,
                    ),
                    Some(version) => match prepared_join(
                        event@,
                        version,
                        ctx.server_name@,
                        ctx.key,
                        now,
                        ctx.profile,
                        opt_view(ctx.reason),
                    ) {
                        Some((members, id, via)) if outgoing_event(members, version) is Some => {
                            &&& action matches JoinAction::SendJoin { server, event_id, pdu }
                            &&& server == old(self).asked
                            &&& event_id@ == id
                            &&& Some(pdu@) == outgoing_event(members, version)
                            &&& final(self).version == Some(version)
                            &&& final(self).prepared matches Some(p)
                            &&& p.event@ == members
                            &&& p.event_id@ == id
                            &&& opt_view(p.authorized_via) == via
                        },
                        _ => action matches JoinAction::Fail(e) && e.is(
                            ErrorKind::BadServerResponse,
                            "Invalid make_join event json received from server"@,
                        ),
                    },
                },
                JoinEvent::SendJoinFailed { error } => action == JoinAction::Fail(error),
                JoinEvent::SendJoinDone { signed_event, state, auth_chain } => {
                    let ours = old(self).prepared->0;
                    match graft_outcome(
                        ours.event@,
                        ours.event_id@,
                        ours.authorized_via is Some,
                        old(self).version->0,
                        opt_view(signed_event),
                        ctx.servers@[old(self).asked as int]@,
                    ) {
                        Err(message) => action matches JoinAction::Fail(e) && e.is(
                            ErrorKind::BadServerResponse,
                            message,
                        ),
                        Ok((members, _)) => if pdu_of(ours.event_id@, members) is Some {
                            &&& action is FetchKeys
                            &&& final(self).prepared matches Some(p)
                            &&& p.event@ == members
                            &&& p.event_id@ == ours.event_id@
                            &&& views(final(self).state@) == views(state@)
                            &&& views(final(self).auth_chain@) == views(auth_chain@)
                        } else {
                            action matches JoinAction::Fail(e) && e.is(
                                ErrorKind::BadServerResponse,
                                "Invalid join event PDU"@,
                            )
                        },
                    }
                },
                JoinEvent::KeysFailed { error } => action == JoinAction::Fail(error),
                JoinEvent::KeysFetched { keys, now } => {
                    let version = old(self).version->0;
                    let nothing = Imported {
                        outliers: Seq::empty(),
                        state: Map::empty(),
                        bad_events: old(bad_events)@,
                        invalid: false,
                    };
                    let with_state = import_all(
                        nothing,
                        views(old(self).state@),
                        version,
                        key_views(keys@),
                        now,
                        true,
                    );
                    let with_chain = import_all(
                        with_state,
                        views(old(self).auth_chain@),
                        version,
                        key_views(keys@),
                        now,
                        false,
                    );
                    if with_state.invalid {
                        &&& action matches JoinAction::Fail(e)
                        &&& e.is(
                            ErrorKind::BadServerResponse,
                            "Invalid PDU in send_join response"@,
                        )
                        &&& final(bad_events)@ == with_state.bad_events
                    } else {
                        &&& action matches JoinAction::StoreState { outliers, state }
                        &&& outlier_views(outliers@) == with_chain.outliers
                        &&& state.wf()
                        &&& id_views(state.map()) == with_chain.state
                        &&& final(bad_events)@ == with_chain.bad_events
                        &&& final(self).prepared == old(self).prepared
                    }
                },
                JoinEvent::StoreFailed { error } => action == JoinAction::Fail(error),
                JoinEvent::StateStored => {
                    &&& action is AuthCheck
                    &&& final(self).prepared == old(self).prepared
                    &&& final(self).version == old(self).version
                },
                JoinEvent::AuthChecked { passed } => if passed == Some(true) {
                    &&& action matches JoinAction::Persist { event_id, event }
                    &&& event.wf()
                    &&& event@ == old(self).prepared->0.event@
                    &&& event_id@ == old(self).prepared->0.event_id@
                } else {
                    action matches JoinAction::Fail(e) && e.is(
                        ErrorKind::Forbidden,
                        "Auth check failed"@,
                    )
                },
                JoinEvent::PersistFailed { error } => action == JoinAction::Fail(error),
                JoinEvent::Persisted => action is Done,
            },
    {
        match event {
            JoinEvent::MakeJoinFailed { code, error } => self.make_join_failed(ctx, code, error),
            JoinEvent::MakeJoinDone { room_version, event, now } => self.make_join_done(
                ctx,
                room_version,
                event,
                now,
            ),
            JoinEvent::SendJoinFailed { error } => self.fail(error),
            JoinEvent::SendJoinDone { signed_event, state, auth_chain } => self.send_join_done(
                ctx,
                signed_event,
                state,
                auth_chain,
            ),
            JoinEvent::KeysFailed { error } => self.fail(error),
            JoinEvent::KeysFetched { keys, now } => self.keys_fetched(ctx, bad_events, keys, now),
            JoinEvent::StoreFailed { error } => self.fail(error),
            JoinEvent::StateStored => {
                self.phase = JoinPhase::Authorizing;
                JoinAction::AuthCheck
            },
            JoinEvent::AuthChecked { passed } => self.auth_checked(ctx, passed),
            JoinEvent::PersistFailed { error } => self.fail(error),
            JoinEvent::Persisted => {
                self.phase = JoinPhase::Finished;
                JoinAction::Done
            },
        }
    }
}

/// Taking in events without reading them as state never fails.
proof fn lemma_chain_never_invalid(
    acc: Imported,
    pdus: Seq<Seq<char>>,
    version: RoomVersion,
    keys: Seq<(Seq<char>, Seq<char>, Seq<char>)>,
    now: u64,
)
    requires
        !acc.invalid,
    ensures
        !import_all(acc, pdus, version, keys, now, false).invalid,
    decreases pdus.len(),
{
    if pdus.len() > 0 {
        lemma_chain_never_invalid(acc, pdus.drop_last(), version, keys, now);
    }
}

} // verus!
