//! The sender's loop, one turn at a time.
//!
//! The task that owns the sender waits for one of four things: a
//! transaction ends, a backoff timer fires, a wake signal arrives, or an
//! event is queued. It hands what happened to `step` and performs what
//! `step` returns.

use crate::assoc::Key;
use crate::sending::status::{
    failures_after, mark_failed_and_backoff, row_events, row_views, select_events,
    sender_backoff_secs, statuses_valid, transaction_events, transaction_succeeded, under_way,
    wake, batch, current_selection, included_educount, included_edus, QueuedRow, StatusTable,
    TransactionPrepOutcome, TransactionStatus,
};
use crate::sending::{payloads, Destination, OutgoingDestination, Payload, SendingEventType};
use vstd::prelude::*;

verus! {

/// What the sender's task was woken by.
#[derive(Debug)]
pub enum SenderEvent {
    /// The destination acknowledged its transaction. `queued` are the rows
    /// queued for it meanwhile.
    Succeeded { dest: OutgoingDestination, queued: Vec<QueuedRow> },
    /// The transaction of the destination failed or timed out.
    Failed { dest: OutgoingDestination },
    /// The backoff timer of the destination fired. `active` are its rows
    /// that are still active.
    TimerFired { dest: OutgoingDestination, active: Vec<SendingEventType> },
    /// A wake signal for the destination arrived.
    Woken { dest: OutgoingDestination },
    /// A row was queued for the destination. `edus` are the ephemeral
    /// events selected for it.
    Queued { dest: OutgoingDestination, row: QueuedRow, edus: Option<(Vec<Vec<u8>>, u64)> },
}

/// What the sender's task has to do next.
#[derive(Debug)]
pub enum SenderAction {
    /// With `delete_active`, first delete the active rows of the
    /// destination: it has acknowledged them. Then mark the rows as active,
    /// store the count for the destination, and start a transaction with
    /// the events.
    Send {
        dest: OutgoingDestination,
        events: Vec<SendingEventType>,
        mark_active: Vec<QueuedRow>,
        latest_educount: Option<u64>,
        delete_active: bool,
    },
    /// Delete the active rows of the destination: it has acknowledged
    /// them, and nothing more is queued for it.
    Delete { dest: OutgoingDestination },
    /// Start a timer that fires after `secs` seconds, and keep a waker that
    /// makes it fire at once.
    Backoff { dest: OutgoingDestination, secs: u64 },
    /// Send a wake signal for the destination.
    Wake { dest: OutgoingDestination },
    /// Make the backoff timer of the destination fire now.
    Fire { dest: OutgoingDestination },
    /// Nothing.
    Nothing,
}

impl SenderEvent {
    /// The destination that the event is about.
    pub open spec fn destination(&self) -> Destination {
        match self {
            SenderEvent::Succeeded { dest, .. } => dest@,
            SenderEvent::Failed { dest } => dest@,
            SenderEvent::TimerFired { dest, .. } => dest@,
            SenderEvent::Woken { dest } => dest@,
            SenderEvent::Queued { dest, .. } => dest@,
        }
    }

    /// Whether the event can happen in the given state: only a transaction
    /// under way can fail, and only the timer of a failed destination can
    /// fire.
    pub open spec fn expected(&self, table: Map<Destination, TransactionStatus>) -> bool {
        match self {
            SenderEvent::Failed { dest } => table.contains_key(dest@) && under_way(table[dest@]),
            SenderEvent::TimerFired { dest, .. } => table.contains_key(dest@) && table[dest@]
                is Failed,
            _ => true,
        }
    }
}

/// Whether `event` can happen in the state `status`.
pub fn event_expected(status: &StatusTable, event: &SenderEvent) -> (r: bool)
    requires
        status.wf(),
    ensures
        r == event.expected(status.map()),
{
    match event {
        SenderEvent::Failed { dest } => match status.get(dest) {
            Some(TransactionStatus::Running) => true,
            Some(TransactionStatus::Retrying { .. }) => true,
            _ => false,
        },
        SenderEvent::TimerFired { dest, .. } => match status.get(dest) {
            Some(TransactionStatus::Failed { .. }) => true,
            _ => false,
        },
        _ => true,
    }
}

fn prepared(dest: OutgoingDestination, outcome: TransactionPrepOutcome, mark_active: Vec<
    QueuedRow,
>, latest_educount: Option<u64>) -> (action: SenderAction)
    ensures
        match outcome {
            TransactionPrepOutcome::Send(events) => action == (SenderAction::Send {
                dest,
                events,
                mark_active,
                latest_educount,
                delete_active: false,
            }),
            TransactionPrepOutcome::Wake(d) => action == (SenderAction::Wake { dest: d }),
            TransactionPrepOutcome::Nothing => action == SenderAction::Nothing,
        },
{
    match outcome {
        TransactionPrepOutcome::Send(events) => SenderAction::Send {
            dest,
            events,
            mark_active,
            latest_educount,
            delete_active: false,
        },
        TransactionPrepOutcome::Wake(d) => SenderAction::Wake { dest: d },
        TransactionPrepOutcome::Nothing => SenderAction::Nothing,
    }
}

/// Whether every destination but `d` stands in the table after a turn as
/// it stood before: a turn touches the destination of its event only.
pub open spec fn others_kept(
    before: Map<Destination, TransactionStatus>,
    after: Map<Destination, TransactionStatus>,
    d: Destination,
) -> bool {
    forall|other: Destination|
        #![trigger after.contains_key(other)]
        #![trigger after[other]]
        other != d ==> (after.contains_key(other) == before.contains_key(other) && after[other]
            == before[other])
}

/// Whether the rows of a destination may be in flight: it has an entry in
/// the table. A destination without an entry has no transaction under way
/// and no timer pending.
pub open spec fn engaged(table: Map<Destination, TransactionStatus>, d: Destination) -> bool {
    table.contains_key(d)
}

/// A transaction is started only for a destination that has none under
/// way: for one that had no entry, one whose transaction was just
/// acknowledged, or one whose timer just fired. So no destination ever has
/// two transactions in flight.
pub proof fn lemma_one_transaction_per_destination(
    before: Map<Destination, TransactionStatus>,
    event: SenderEvent,
    after: Map<Destination, TransactionStatus>,
    action: SenderAction,
)
    requires
        event.expected(before),
        step_outcome(before, event, after, action),
        action is Send,
    ensures
        event is Succeeded || event is TimerFired || (event is Queued && !engaged(
            before,
            event.destination(),
        )),
        engaged(after, event.destination()),
        after[event.destination()] is Running || after[event.destination()] is Retrying,
{
}

/// Whether ephemeral events are wanted with a row queued for `dest`: only
/// a server that has no transaction under way gets a transaction made of
/// the row and of them.
pub fn edus_wanted(status: &StatusTable, dest: &OutgoingDestination) -> (r: bool)
    requires
        status.wf(),
    ensures
        r == (dest@ is Normal && !status.map().contains_key(dest@)),
{
    match dest {
        OutgoingDestination::Normal(_) => !status.contains_key(dest),
        _ => false,
    }
}

/// What one turn of the sender comes to: the table before, what happened,
/// the table afterwards, and what is to be done.
pub open spec fn step_outcome(
    before: Map<Destination, TransactionStatus>,
    event: SenderEvent,
    after: Map<Destination, TransactionStatus>,
    action: SenderAction,
) -> bool {
    match event {
        SenderEvent::Succeeded { dest, queued } => {
            if queued@.len() == 0 {
                &&& action matches SenderAction::Delete { dest: d }
                &&& d@ == dest@
                &&& !after.contains_key(dest@)
            } else {
                &&& action matches SenderAction::Send {
                    dest: d,
                    events,
                    mark_active,
                    latest_educount,
                    delete_active,
                }
                &&& delete_active
                &&& d@ == dest@
                &&& payloads(events@) == row_events(batch(row_views(queued@), 30))
                &&& row_views(mark_active@) == batch(row_views(queued@), 30)
                &&& latest_educount is None
                &&& after.contains_key(dest@)
                &&& after[dest@] == TransactionStatus::Running
            }
        },
        SenderEvent::Failed { dest } => {
            &&& action matches SenderAction::Backoff { dest: d, secs }
            &&& d@ == dest@
            &&& secs == sender_backoff_secs(failures_after(before[dest@]) as nat)
            &&& after.contains_key(dest@)
            &&& after[dest@] == (TransactionStatus::Failed {
                failures: failures_after(before[dest@]) as u32,
                waker: true,
            })
            &&& failures_after(before[dest@]) >= 1
        },
        SenderEvent::TimerFired { dest, active } => {
            &&& action matches SenderAction::Send {
                dest: d,
                events,
                mark_active,
                latest_educount,
                delete_active,
            }
            &&& d@ == dest@
            &&& payloads(events@) == payloads(active@)
            &&& mark_active@.len() == 0
            &&& latest_educount is None
            &&& !delete_active
            &&& after.contains_key(dest@)
            &&& after[dest@] == (TransactionStatus::Retrying {
                failures: before[dest@]->Failed_failures,
            })
        },
        SenderEvent::Woken { dest } => {
            let backing_off = before.contains_key(dest@) && (before[dest@] matches TransactionStatus::Failed { waker: true, .. });
            if backing_off {
                &&& action matches SenderAction::Fire { dest: d }
                &&& d@ == dest@
                &&& after.contains_key(dest@)
                &&& after[dest@] == (TransactionStatus::Failed {
                    failures: failures_after(before[dest@]) as u32,
                    waker: false,
                })
            } else {
                &&& action is Nothing
                &&& after == before
            }
        },
        SenderEvent::Queued { dest, row, edus } => {
            if !before.contains_key(dest@) {
                &&& action matches SenderAction::Send {
                    dest: d,
                    events,
                    mark_active,
                    latest_educount,
                    delete_active,
                }
                &&& !delete_active
                &&& d@ == dest@
                &&& payloads(events@) == transaction_events(
                    false,
                    Seq::empty(),
                    seq![row.event@],
                    included_edus(dest@, edus),
                )
                &&& row_views(mark_active@) == seq![row@]
                &&& latest_educount == included_educount(dest@, edus)
                &&& after.contains_key(dest@)
                &&& after[dest@] == TransactionStatus::Running
            } else if before[dest@] is Failed {
                &&& action matches SenderAction::Wake { dest: d }
                &&& d@ == dest@
                &&& after == before
            } else {
                &&& action is Nothing
                &&& after == before
            }
        },
    }
}

/// One turn of the sender: moves the table on and says what to do.
///
/// - A transaction succeeded: its rows are to be deleted; the next thirty
///   queued rows are sent, or the destination is forgotten where nothing
///   is queued. No other turn deletes a row.
/// - A transaction failed: the destination is `Failed` with one failure
///   more and a waker, and backs off.
/// - A timer fired: the destination is `Retrying` and its active rows are
///   sent again, and nothing else.
/// - A wake signal arrived: the timer of a failed destination fires now,
///   once.
/// - A row was queued: a destination without an entry starts a
///   transaction; one that has failed is woken; one with a transaction
///   under way is left alone.
pub fn step(status: &mut StatusTable, event: SenderEvent) -> (action: SenderAction)
    requires
        old(status).wf(),
        event.expected(old(status).map()),
    ensures
        final(status).wf(),
        statuses_valid(old(status).map()) ==> statuses_valid(final(status).map()),
        others_kept(old(status).map(), final(status).map(), event.destination()),
        step_outcome(old(status).map(), event, final(status).map(), action),
{
    match event {
        SenderEvent::Succeeded { dest, queued } => {
            let next = transaction_succeeded(status, &dest, queued);
            match next.send {
                Some(events) => SenderAction::Send {
                    dest,
                    events,
                    mark_active: next.mark_active,
                    latest_educount: None,
                    delete_active: true,
                },
                None => SenderAction::Delete { dest },
            }
        },
        SenderEvent::Failed { dest } => {
            let secs = mark_failed_and_backoff(status, &dest);
            SenderAction::Backoff { dest, secs }
        },
        SenderEvent::TimerFired { dest, active } => {
            let empty: Vec<QueuedRow> = Vec::new();
            let p = select_events(&dest, empty, status, false, &active, None);
            assert(row_views(p.mark_active@).len() == p.mark_active@.len());
            prepared(dest, p.outcome, p.mark_active, p.latest_educount)
        },
        SenderEvent::Woken { dest } => {
            if wake(status, &dest) {
                SenderAction::Fire { dest }
            } else {
                SenderAction::Nothing
            }
        },
        SenderEvent::Queued { dest, row, edus } => {
            let mut rows: Vec<QueuedRow> = Vec::new();
            let ghost r = row@;
            rows.push(row);
            assert(row_views(rows@) =~= seq![r]);
            assert(row_events(row_views(rows@)) =~= seq![r.0]);
            let none: Vec<SendingEventType> = Vec::new();
            let p = select_events(&dest, rows, status, true, &none, edus);
            prepared(dest, p.outcome, p.mark_active, p.latest_educount)
        },
    }
}

} // verus!
