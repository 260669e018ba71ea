//! The sender as the rest of the server sees it: what is queued for whom,
//! and the sender's own state.

use crate::assoc::{byte_views, clone_bytes, AssocMap};
use crate::config::Config;
use crate::error::{Error, ErrorKind};
use crate::sending::edu::{self, selected_edus, selection_failure, PresenceRow, RoomEdus};
use crate::sending::handler::{self, SenderAction, SenderEvent};
use crate::sending::startup::{
    activated, dropped_keys, kept_for, rows_view, seen, startup_netburst, ActiveRow, Netburst,
};
use crate::sending::status::{row_views, statuses_valid, StatusTable, TransactionStatus};
use crate::sending::{
    payloads, request_views, Destination, OutgoingDestination, Payload, SendingEventType,
};
use crate::text::views;
use vstd::prelude::*;

verus! {

/// The servers of a room that an event goes to: all but this server.
pub open spec fn remote_servers(servers: Seq<Seq<char>>, own: Seq<char>) -> Seq<Seq<char>> {
    servers.filter(|s: Seq<char>| s != own)
}

/// Leaves this server out of the servers of a room.
pub fn servers_except(servers: &Vec<String>, own: &str) -> (r: Vec<String>)
    ensures
        views(r@) == remote_servers(views(servers@), own@),
{
    let own_name = own.to_owned();
    let mut r: Vec<String> = Vec::new();
    let ghost all = views(servers@);
    let ghost keep = |s: Seq<char>| s != own@;
    let mut i: usize = 0;
    assert(all.subrange(0, 0).filter(keep) =~= Seq::<Seq<char>>::empty()) by {
        assert(all.subrange(0, 0) =~= Seq::<Seq<char>>::empty());
        reveal(Seq::filter);
    }
    while i < servers.len()
        invariant
            i <= servers.len(),
            all == views(servers@),
            keep == (|s: Seq<char>| s != own@),
            own_name@ == own@,
            views(r@) == all.subrange(0, i as int).filter(keep),
        decreases servers.len() - i,
    {
        proof {
            let before = all.subrange(0, i as int);
            let next = all.subrange(0, i + 1);
            assert(next =~= before.push(all[i as int]));
            assert(next.drop_last() =~= before);
            reveal(Seq::filter);
            assert(all[i as int] == servers@[i as int]@);
        }
        if servers[i] != own_name {
            let ghost old_r = views(r@);
            r.push(servers[i].clone());
            assert(views(r@) =~= old_r.push(servers@[i as int]@));
        }
        i = i + 1;
    }
    assert(all.subrange(0, servers.len() as int) =~= all);
    r
}

/// One request per server, each for the same entry.
pub open spec fn requests_for(servers: Seq<Seq<char>>, payload: Payload) -> Seq<
    (Destination, Payload),
> {
    servers.map_values(|s: Seq<char>| (Destination::Normal(s), payload))
}

/// The queue requests that send one entry to each of `servers`.
pub fn requests_to_servers(servers: &Vec<String>, event: &SendingEventType) -> (r: Vec<
    (OutgoingDestination, SendingEventType),
>)
    ensures
        request_views(r@) == requests_for(views(servers@), event@),
{
    let mut r: Vec<(OutgoingDestination, SendingEventType)> = Vec::new();
    let mut i: usize = 0;
    while i < servers.len()
        invariant
            i <= servers.len(),
            r@.len() == i,
            forall|j: int|
                0 <= j < i ==> (#[trigger] r@[j]).0@ == Destination::Normal(servers@[j]@)
                    && r@[j].1@ == event@,
        decreases servers.len() - i,
    {
        r.push((OutgoingDestination::Normal(servers[i].clone()), event.duplicate()));
        i = i + 1;
    }
    assert(request_views(r@) =~= requests_for(views(servers@), event@));
    r
}

/// The sender: its settings, and the state of every destination with a
/// transaction under way.
#[derive(Debug)]
pub struct Service {
    /// The name of this server.
    pub server_name: String,
    /// How many outbound requests may be in flight at once.
    pub maximum_requests: u16,
    /// Whether the rows found at startup are sent again.
    pub startup_netburst: bool,
    /// How many of them per destination; negative for all.
    pub startup_netburst_keep: i64,
    /// The seconds after which a transaction is given up.
    pub timeout: u64,
    pub allow_outgoing_read_receipts: bool,
    pub allow_outgoing_presence: bool,
    /// The destinations with a transaction under way.
    pub status: StatusTable,
}

impl Service {
    /// The table of destinations is a map, and every entry that records
    /// failures records at least one.
    pub open spec fn wf(&self) -> bool {
        self.status.wf() && statuses_valid(self.status.map())
    }

    /// Whether two senders have the same settings: all but the table of
    /// destinations.
    pub open spec fn same_settings(&self, other: &Service) -> bool {
        &&& self.server_name == other.server_name
        &&& self.maximum_requests == other.maximum_requests
        &&& self.startup_netburst == other.startup_netburst
        &&& self.startup_netburst_keep == other.startup_netburst_keep
        &&& self.timeout == other.timeout
        &&& self.allow_outgoing_read_receipts == other.allow_outgoing_read_receipts
        &&& self.allow_outgoing_presence == other.allow_outgoing_presence
    }

    /// Makes the sender from the configuration. No destination has a
    /// transaction under way.
    pub fn build(config: &Config) -> (s: Service)
        ensures
            s.wf(),
            s.server_name@ == config.server_name@,
            s.maximum_requests == config.max_concurrent_requests,
            s.startup_netburst == config.startup_netburst,
            s.startup_netburst_keep == config.startup_netburst_keep,
            s.timeout == config.sender_timeout,
            s.allow_outgoing_read_receipts == config.allow_outgoing_read_receipts,
            s.allow_outgoing_presence == config.allow_outgoing_presence,
            s.status.map() == Map::<Destination, TransactionStatus>::empty(),
    {
        Service {
            server_name: config.server_name.clone(),
            maximum_requests: config.max_concurrent_requests,
            startup_netburst: config.startup_netburst,
            startup_netburst_keep: config.startup_netburst_keep,
            timeout: config.sender_timeout,
            allow_outgoing_read_receipts: config.allow_outgoing_read_receipts,
            allow_outgoing_presence: config.allow_outgoing_presence,
            status: AssocMap::new(),
        }
    }

    /// The queue request that sends the event `pdu_id` to a push gateway.
    pub fn send_pdu_push(&self, pdu_id: &Vec<u8>, user: &str, pushkey: String) -> (r: (
        OutgoingDestination,
        SendingEventType,
    ))
        ensures
            r.0@ == Destination::Push(user@, pushkey@),
            r.1@ == Payload::Pdu(pdu_id@),
    {
        (
            OutgoingDestination::Push(user.to_owned(), pushkey),
            SendingEventType::Pdu(clone_bytes(pdu_id)),
        )
    }

    /// The queue request that sends the event `pdu_id` to an appservice.
    pub fn send_pdu_appservice(&self, appservice_id: String, pdu_id: Vec<u8>) -> (r: (
        OutgoingDestination,
        SendingEventType,
    ))
        ensures
            r.0@ == Destination::Appservice(appservice_id@),
            r.1@ == Payload::Pdu(pdu_id@),
    {
        (OutgoingDestination::Appservice(appservice_id), SendingEventType::Pdu(pdu_id))
    }

    /// The queue requests that send the event `pdu_id` to every server of
    /// a room but this one.
    pub fn send_pdu_room(&self, room_servers: &Vec<String>, pdu_id: &Vec<u8>) -> (r: Vec<
        (OutgoingDestination, SendingEventType),
    >)
        ensures
            request_views(r@) == requests_for(
                remote_servers(views(room_servers@), self.server_name@),
                Payload::Pdu(pdu_id@),
            ),
    {
        let servers = servers_except(room_servers, self.server_name.as_str());
        self.send_pdu_servers(&servers, pdu_id)
    }

    /// The queue requests that send the event `pdu_id` to each of
    /// `servers`.
    pub fn send_pdu_servers(&self, servers: &Vec<String>, pdu_id: &Vec<u8>) -> (r: Vec<
        (OutgoingDestination, SendingEventType),
    >)
        ensures
            request_views(r@) == requests_for(views(servers@), Payload::Pdu(pdu_id@)),
    {
        let event = SendingEventType::Pdu(clone_bytes(pdu_id));
        requests_to_servers(servers, &event)
    }

    /// The queue request that sends the ephemeral event `serialized` to
    /// one server.
    pub fn send_edu_server(&self, server: &str, serialized: Vec<u8>) -> (r: (
        OutgoingDestination,
        SendingEventType,
    ))
        ensures
            r.0@ == Destination::Normal(server@),
            r.1@ == Payload::Edu(serialized@),
    {
        (OutgoingDestination::Normal(server.to_owned()), SendingEventType::Edu(serialized))
    }

    /// The queue requests that send the ephemeral event `serialized` to
    /// every server of a room but this one.
    pub fn send_edu_room(&self, room_servers: &Vec<String>, serialized: &Vec<u8>) -> (r: Vec<
        (OutgoingDestination, SendingEventType),
    >)
        ensures
            request_views(r@) == requests_for(
                remote_servers(views(room_servers@), self.server_name@),
                Payload::Edu(serialized@),
            ),
    {
        let servers = servers_except(room_servers, self.server_name.as_str());
        self.send_edu_servers(&servers, serialized)
    }

    /// The queue requests that send the ephemeral event `serialized` to
    /// each of `servers`.
    pub fn send_edu_servers(&self, servers: &Vec<String>, serialized: &Vec<u8>) -> (r: Vec<
        (OutgoingDestination, SendingEventType),
    >)
        ensures
            request_views(r@) == requests_for(views(servers@), Payload::Edu(serialized@)),
    {
        let event = SendingEventType::Edu(clone_bytes(serialized));
        requests_to_servers(servers, &event)
    }

    /// The nudges for every server of a room but this one.
    pub fn flush_room(&self, room_servers: &Vec<String>) -> (r: Vec<
        (OutgoingDestination, SendingEventType),
    >)
        ensures
            request_views(r@) == requests_for(
                remote_servers(views(room_servers@), self.server_name@),
                Payload::Flush,
            ),
    {
        let servers = servers_except(room_servers, self.server_name.as_str());
        self.flush_servers(&servers)
    }

    /// The nudges that make each of `servers` send what is queued for it.
    /// A nudge is not stored: it has no key.
    pub fn flush_servers(&self, servers: &Vec<String>) -> (r: Vec<
        (OutgoingDestination, SendingEventType),
    >)
        ensures
            request_views(r@) == requests_for(views(servers@), Payload::Flush),
    {
        requests_to_servers(servers, &SendingEventType::Flush)
    }

    /// The destination whose queued events are dropped when an
    /// appservice's registration is removed.
    pub fn cleanup_events(&self, appservice_id: String) -> (r: OutgoingDestination)
        ensures
            r@ == Destination::Appservice(appservice_id@),
    {
        OutgoingDestination::Appservice(appservice_id)
    }

    /// Selects the ephemeral events for a server. `since` is the count
    /// stored for it, `rooms` what the rooms shared with it hold since
    /// then, `presence` the presence changes since then.
    pub fn select_edus(&self, since: u64, rooms: &Vec<RoomEdus>, presence: &Vec<PresenceRow>) -> (r:
        Result<(Vec<Vec<u8>>, u64), Error>)
        ensures
            ({
                let end = selected_edus(
                    since,
                    rooms@,
                    presence@,
                    self.server_name@,
                    self.allow_outgoing_read_receipts,
                    self.allow_outgoing_presence,
                );
                &&& r is Err <==> end.failed
                &&& r matches Ok(p) ==> byte_views(p.0@) == end.events && p.1 == end.max_count
                    && p.0@.len() <= 16
                &&& r matches Err(e) ==> e.is(
                    ErrorKind::Database,
                    selection_failure(
                        since,
                        rooms@,
                        self.server_name@,
                        self.allow_outgoing_read_receipts,
                    ),
                )
            }),
    {
        edu::select_edus(
            since,
            rooms,
            presence,
            self.server_name.as_str(),
            self.allow_outgoing_read_receipts,
            self.allow_outgoing_presence,
        )
    }

    /// Starts the sender with the rows found in the database: the active
    /// rows and the rows still pending. Where the rows are sent again at
    /// startup, every
    /// destination among them starts `Running` with at most
    /// `startup_netburst_keep` of its rows; otherwise nothing is sent and
    /// nothing is dropped.
    pub fn start_handler(&mut self, rows: &Vec<ActiveRow>) -> (r: Option<Netburst>)
        ensures
            final(self).wf(),
            final(self).same_settings(old(self)),
            r is Some <==> old(self).startup_netburst,
            !old(self).startup_netburst ==> final(self).status.map() == Map::<
                Destination,
                TransactionStatus,
            >::empty(),
            r matches Some(burst) ==> {
                &&& burst.transactions.wf()
                &&& forall|d: Destination| #[trigger]
                    burst.transactions.map().contains_key(d) <==> seen(rows_view(rows@), d)
                &&& forall|d: Destination| #[trigger]
                    burst.transactions.map().contains_key(d) ==> payloads(
                        burst.transactions.map()[d]@,
                    ) == kept_for(rows_view(rows@), old(self).startup_netburst_keep as int, d)
                &&& byte_views(burst.dropped@) == dropped_keys(
                    rows_view(rows@),
                    old(self).startup_netburst_keep as int,
                    false,
                )
                &&& byte_views(burst.dropped_pending@) == dropped_keys(
                    rows_view(rows@),
                    old(self).startup_netburst_keep as int,
                    true,
                )
                &&& row_views(burst.mark_active@) == activated(
                    rows_view(rows@),
                    old(self).startup_netburst_keep as int,
                )
                &&& forall|d: Destination| #[trigger]
                    final(self).status.map().contains_key(d) <==> seen(rows_view(rows@), d)
                &&& forall|d: Destination| #[trigger]
                    final(self).status.map().contains_key(d) ==> final(self).status.map()[d]
                        == TransactionStatus::Running
            },
    {
        if !self.startup_netburst {
            self.status = AssocMap::new();
            return None;
        }
        let mut burst = startup_netburst(rows, self.startup_netburst_keep);
        let mut status: StatusTable = AssocMap::new();
        std::mem::swap(&mut status, &mut burst.status);
        self.status = status;
        Some(burst)
    }

    /// One turn of the sender's loop: see `handler::step`. The turn
    /// touches the entry of the event's destination and nothing else: every
    /// other destination keeps its entry, and the settings stay.
    pub fn handler(&mut self, event: SenderEvent) -> (action: SenderAction)
        requires
            old(self).wf(),
            event.expected(old(self).status.map()),
        ensures
            final(self).wf(),
            final(self).same_settings(old(self)),
            handler::others_kept(
                old(self).status.map(),
                final(self).status.map(),
                event.destination(),
            ),
            handler::step_outcome(old(self).status.map(), event, final(self).status.map(), action),
    {
        handler::step(&mut self.status, event)
    }
}

} // verus!
