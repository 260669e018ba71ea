//! The sender's per-destination state machine.
//!
//! One task owns the table of destinations with a transaction under way.
//! Every entry is `Running`, `Failed` (backing off, with a waker that cuts
//! the wait short) or `Retrying`. The functions here are the transitions;
//! the task that owns the table performs what they return.

use crate::assoc::{clone_bytes, AssocMap, Key};
use crate::sending::{payloads, Destination, OutgoingDestination, Payload, SendingEventType};
use vstd::prelude::*;

verus! {

/// The state of the transaction of one destination.
#[derive(Clone, Copy, Debug, PartialEq, Eq, Structural)]
pub enum TransactionStatus {
    /// Under way, for the first time.
    Running,
    /// Failed; backing off before the next try.
    Failed {
        /// How many times in a row it has failed.
        failures: u32,
        /// Whether the backoff timer can still be cut short.
        waker: bool,
    },
    /// Under way again after a failure.
    Retrying {
        /// How many times in a row it had failed.
        failures: u32,
    },
}

/// What to do after looking at a destination's state.
#[derive(Debug)]
pub enum TransactionPrepOutcome {
    /// Send these events in one transaction.
    Send(Vec<SendingEventType>),
    /// Cut the backoff of this destination short.
    Wake(OutgoingDestination),
    /// Leave it: a transaction is under way and will pick the events up.
    Nothing,
}

/// The table of destinations with a transaction under way.
pub type StatusTable = AssocMap<OutgoingDestination, TransactionStatus>;

/// How many rows a finished transaction takes over from the queue.
pub const QUEUE_BATCH: usize = 30;

/// The longest backoff: one day, in seconds.
pub const BACKOFF_LIMIT_SECS: u64 = 86400;

/// The wait after `failures` failures in a row: thirty seconds times the
/// square of the count, at most one day.
pub open spec fn sender_backoff_secs(failures: nat) -> nat {
    if 30 * failures * failures < 86400 {
        30 * failures * failures
    } else {
        86400
    }
}

/// The seconds to wait after `failures` failures in a row.
pub fn backoff_secs(failures: u32) -> (secs: u64)
    ensures
        secs == sender_backoff_secs(failures as nat),
{
    if failures >= 54 {
        assert(30 * (failures as nat) * (failures as nat) >= 86400) by (nonlinear_arith)
            requires
                failures >= 54,
        ;
        BACKOFF_LIMIT_SECS
    } else {
        assert(30 * (failures as nat) * (failures as nat) <= 30 * 53 * 53) by (nonlinear_arith)
            requires
                failures < 54,
        ;
        let f: u64 = failures as u64;
        30 * f * f
    }
}

/// The backoff never exceeds one day, never shrinks as failures mount, and
/// stays at one day from the 54th failure on.
pub proof fn lemma_backoff_capped(a: nat, b: nat)
    requires
        a <= b,
    ensures
        sender_backoff_secs(a) <= sender_backoff_secs(b) <= 86400,
        b >= 54 ==> sender_backoff_secs(b) == 86400,
        sender_backoff_secs(a) == 86400 ==> sender_backoff_secs(b) == 86400,
{
    assert(30 * a * a <= 30 * b * b) by (nonlinear_arith)
        requires
            a <= b,
    ;
    if b >= 54 {
        assert(30 * b * b >= 86400) by (nonlinear_arith)
            requires
                b >= 54,
        ;
    }
}

/// Every entry that records failures records at least one.
pub open spec fn statuses_valid(table: Map<Destination, TransactionStatus>) -> bool {
    forall|d: Destination| #[trigger]
        table.contains_key(d) ==> match table[d] {
            TransactionStatus::Running => true,
            TransactionStatus::Failed { failures, .. } => failures >= 1,
            TransactionStatus::Retrying { failures } => failures >= 1,
        }
}

/// The count of failures in a row once a transaction in the given state
/// has failed: one after a first run, one more after a retry. The count
/// stops at the largest number that it can hold.
pub open spec fn failures_after(status: TransactionStatus) -> int {
    match status {
        TransactionStatus::Running => 1,
        TransactionStatus::Retrying { failures } => if failures < u32::MAX {
            failures + 1
        } else {
            u32::MAX as int
        },
        TransactionStatus::Failed { failures, .. } => failures as int,
    }
}

/// Whether a transaction in this state can fail: it is under way.
pub open spec fn under_way(status: TransactionStatus) -> bool {
    !(status is Failed)
}

/// Records that the transaction of `dest` failed: the entry becomes
/// `Failed` with one failure more and a fresh waker. Returns the seconds to
/// wait before the next try.
pub fn mark_failed_and_backoff(status: &mut StatusTable, dest: &OutgoingDestination) -> (wait: u64)
    requires
        old(status).wf(),
        old(status).map().contains_key(dest@),
        under_way(old(status).map()[dest@]),
    ensures
        final(status).wf(),
        final(status).map() == old(status).map().insert(
            dest@,
            TransactionStatus::Failed {
                failures: failures_after(old(status).map()[dest@]) as u32,
                waker: true,
            },
        ),
        1 <= failures_after(old(status).map()[dest@]) <= u32::MAX,
        wait == sender_backoff_secs(failures_after(old(status).map()[dest@]) as nat),
        statuses_valid(old(status).map()) ==> statuses_valid(final(status).map()),
{
    let current = match status.get(dest) {
        Some(s) => *s,
        None => TransactionStatus::Running,
    };
    let failures: u32 = match current {
        TransactionStatus::Running => 1,
        TransactionStatus::Retrying { failures } => if failures < u32::MAX {
            failures + 1
        } else {
            u32::MAX
        },
        TransactionStatus::Failed { failures, .. } => failures,
    };
    status.insert(dest.key_clone(), TransactionStatus::Failed { failures, waker: true });
    backoff_secs(failures)
}

/// What a look at the table decides: whether a transaction may start,
/// whether the earlier one is sent again, and whether the destination is to
/// be woken; and the table afterwards.
pub open spec fn current_selection(
    table: Map<Destination, TransactionStatus>,
    d: Destination,
    fresh: bool,
) -> ((bool, bool, bool), Map<Destination, TransactionStatus>) {
    if fresh {
        if table.contains_key(d) {
            match table[d] {
                TransactionStatus::Failed { .. } => ((true, false, true), table),
                _ => ((false, false, false), table),
            }
        } else {
            ((true, false, false), table.insert(d, TransactionStatus::Running))
        }
    } else {
        (
            (true, true, false),
            table.insert(
                d,
                TransactionStatus::Retrying { failures: failures_after(table[d]) as u32 },
            ),
        )
    }
}

/// Looks at the state of `dest` and moves it on.
///
/// For a fresh event: a destination without an entry starts `Running`; one
/// that is running or retrying is left alone and nothing may start; one that
/// has failed is to be woken. For a retry timer that fired, the entry must
/// be `Failed`: it becomes `Retrying` with the same count.
///
/// Returns `(allow, retry, wake_up)`.
pub fn select_events_current(
    dest: &OutgoingDestination,
    status: &mut StatusTable,
    fresh: bool,
) -> (r: (bool, bool, bool))
    requires
        old(status).wf(),
        !fresh ==> old(status).map().contains_key(dest@) && old(status).map()[dest@]
            is Failed,
    ensures
        final(status).wf(),
        (r, final(status).map()) == current_selection(old(status).map(), dest@, fresh),
        statuses_valid(old(status).map()) ==> statuses_valid(final(status).map()),
{
    let current = match status.get(dest) {
        Some(s) => Some(*s),
        None => None,
    };
    if fresh {
        match current {
            Some(TransactionStatus::Failed { .. }) => (true, false, true),
            Some(_) => (false, false, false),
            None => {
                status.insert(dest.key_clone(), TransactionStatus::Running);
                (true, false, false)
            },
        }
    } else {
        match current {
            Some(TransactionStatus::Failed { failures, .. }) => {
                status.insert(dest.key_clone(), TransactionStatus::Retrying { failures });
            },
            _ => {},
        }
        (true, true, false)
    }
}

/// A queued row: the entry and its storage key.
#[derive(Debug)]
pub struct QueuedRow {
    pub event: SendingEventType,
    pub key: Vec<u8>,
}

impl View for QueuedRow {
    type V = (Payload, Seq<u8>);

    open spec fn view(&self) -> (Payload, Seq<u8>) {
        (self.event@, self.key@)
    }
}

/// The views of a list of queued rows.
pub open spec fn row_views(rows: Seq<QueuedRow>) -> Seq<(Payload, Seq<u8>)> {
    rows.map_values(|r: QueuedRow| r@)
}

/// The entries of a list of queued rows.
pub open spec fn row_events(rows: Seq<(Payload, Seq<u8>)>) -> Seq<Payload> {
    rows.map_values(|r: (Payload, Seq<u8>)| r.0)
}

/// Ephemeral events as queue entries.
pub open spec fn edu_payloads(edus: Seq<Vec<u8>>) -> Seq<Payload> {
    edus.map_values(|e: Vec<u8>| Payload::Edu(e@))
}

/// A prepared transaction: what to do, and what to write down first.
#[derive(Debug)]
pub struct Preparation {
    pub outcome: TransactionPrepOutcome,
    /// The rows to mark as active before anything is sent.
    pub mark_active: Vec<QueuedRow>,
    /// The count of the last ephemeral event included, to be stored for the
    /// destination.
    pub latest_educount: Option<u64>,
}

/// The ephemeral events that go into a transaction: those selected for a
/// server; none for another kind of destination or where selecting failed.
pub open spec fn included_edus(d: Destination, edus: Option<(Vec<Vec<u8>>, u64)>) -> Seq<
    Payload,
> {
    match (d, edus) {
        (Destination::Normal(_), Some(e)) => edu_payloads(e.0@),
        _ => Seq::empty(),
    }
}

/// The count to store for the destination after such a transaction.
pub open spec fn included_educount(d: Destination, edus: Option<(Vec<Vec<u8>>, u64)>) -> Option<
    u64,
> {
    match (d, edus) {
        (Destination::Normal(_), Some(e)) => Some(e.1),
        _ => None,
    }
}

/// The events of the transaction to send. A retry sends the rows that are
/// still active and nothing else, so that it is the transaction that
/// failed. A first transaction sends the new rows, then the ephemeral
/// events.
pub open spec fn transaction_events(
    retry: bool,
    active: Seq<Payload>,
    new_events: Seq<Payload>,
    edus: Seq<Payload>,
) -> Seq<Payload> {
    if retry {
        active
    } else {
        new_events + edus
    }
}

fn copy_events(into: &mut Vec<SendingEventType>, from: &Vec<SendingEventType>)
    ensures
        payloads(final(into)@) == payloads(old(into)@) + payloads(from@),
{
    let ghost start = payloads(into@);
    let mut i: usize = 0;
    while i < from.len()
        invariant
            i <= from.len(),
            payloads(into@) == start + payloads(from@).subrange(0, i as int),
        decreases from.len() - i,
    {
        let ghost before = payloads(into@);
        into.push(from[i].duplicate());
        i = i + 1;
        assert(payloads(into@) =~= before.push(from@[i - 1]@));
        assert(payloads(into@) =~= start + payloads(from@).subrange(0, i as int));
    }
    assert(payloads(from@).subrange(0, from.len() as int) =~= payloads(from@));
}

/// Prepares the transaction of `dest`.
///
/// `new_events` are the rows that were just queued, `active` the rows of
/// the destination that are still active (read for a retry), `edus` the
/// ephemeral events selected for it with the count of the last one (for a
/// server, where selecting them worked).
///
/// A retry (`fresh` is false) sends the active rows again as they are: no
/// row is marked as active, no ephemeral event is added and no count is
/// stored.
pub fn select_events(
    dest: &OutgoingDestination,
    new_events: Vec<QueuedRow>,
    status: &mut StatusTable,
    fresh: bool,
    active: &Vec<SendingEventType>,
    edus: Option<(Vec<Vec<u8>>, u64)>,
) -> (r: Preparation)
    requires
        old(status).wf(),
        !fresh ==> old(status).map().contains_key(dest@) && old(status).map()[dest@]
            is Failed,
    ensures
        final(status).wf(),
        final(status).map() == current_selection(old(status).map(), dest@, fresh).1,
        statuses_valid(old(status).map()) ==> statuses_valid(final(status).map()),
        ({
            let (allow, retry, wake_up) = current_selection(old(status).map(), dest@, fresh).0;
            if wake_up {
                &&& r.outcome matches TransactionPrepOutcome::Wake(d)
                &&& d@ == dest@
                &&& r.mark_active@.len() == 0
                &&& r.latest_educount is None
            } else if !allow {
                &&& r.outcome is Nothing
                &&& r.mark_active@.len() == 0
                &&& r.latest_educount is None
            } else {
                &&& r.outcome matches TransactionPrepOutcome::Send(events)
                &&& payloads(events@) == transaction_events(
                    retry,
                    payloads(active@),
                    row_events(row_views(new_events@)),
                    included_edus(dest@, edus),
                )
                &&& row_views(r.mark_active@) == if retry {
                    Seq::empty()
                } else {
                    row_views(new_events@)
                }
                &&& r.latest_educount == if retry {
                    None
                } else {
                    included_educount(dest@, edus)
                }
            }
        }),
{
    let (allow, retry, wake_up) = select_events_current(dest, status, fresh);
    if wake_up {
        return Preparation {
            outcome: TransactionPrepOutcome::Wake(dest.key_clone()),
            mark_active: Vec::new(),
            latest_educount: None,
        };
    } else if !allow {
        return Preparation {
            outcome: TransactionPrepOutcome::Nothing,
            mark_active: Vec::new(),
            latest_educount: None,
        };
    }
    let mut events: Vec<SendingEventType> = Vec::new();
    assert(payloads(events@) =~= Seq::<Payload>::empty());
    if retry {
        copy_events(&mut events, active);
        assert(payloads(events@) =~= payloads(active@));
        let nothing: Vec<QueuedRow> = Vec::new();
        assert(row_views(nothing@) =~= Seq::empty());
        return Preparation {
            outcome: TransactionPrepOutcome::Send(events),
            mark_active: nothing,
            latest_educount: None,
        };
    }
    let ghost first = payloads(events@);
    let mut i: usize = 0;
    while i < new_events.len()
        invariant
            i <= new_events.len(),
            payloads(events@) == first + row_events(row_views(new_events@)).subrange(0, i as int),
        decreases new_events.len() - i,
    {
        let ghost before = payloads(events@);
        events.push(new_events[i].event.duplicate());
        i = i + 1;
        assert(payloads(events@) =~= before.push(new_events@[i - 1].event@));
        assert(payloads(events@) =~= first + row_events(row_views(new_events@)).subrange(
            0,
            i as int,
        ));
    }
    assert(row_events(row_views(new_events@)).subrange(0, new_events.len() as int)
        =~= row_events(row_views(new_events@)));
    let ghost second = payloads(events@);
    let mut latest_educount: Option<u64> = None;
    match dest {
        OutgoingDestination::Normal(_) => {
            match &edus {
                Some(selected) => {
                    let list = &selected.0;
                    let mut j: usize = 0;
                    while j < list.len()
                        invariant
                            j <= list.len(),
                            payloads(events@) == second + edu_payloads(list@).subrange(0, j as int),
                        decreases list.len() - j,
                    {
                        let ghost before = payloads(events@);
                        events.push(SendingEventType::Edu(clone_bytes(&list[j])));
                        j = j + 1;
                        assert(payloads(events@) =~= before.push(Payload::Edu(list@[j - 1]@)));
                        assert(payloads(events@) =~= second + edu_payloads(list@).subrange(
                            0,
                            j as int,
                        ));
                    }
                    assert(edu_payloads(list@).subrange(0, list.len() as int) =~= edu_payloads(
                        list@,
                    ));
                    latest_educount = Some(selected.1);
                },
                None => {
                    assert(payloads(events@) =~= second + Seq::<Payload>::empty());
                },
            }
        },
        _ => {
            assert(payloads(events@) =~= second + Seq::<Payload>::empty());
        },
    }
    Preparation { outcome: TransactionPrepOutcome::Send(events), mark_active: new_events, latest_educount }
}

/// What follows a transaction that the destination acknowledged.
#[derive(Debug)]
pub struct Continuation {
    /// The rows to mark as active: the next batch from the queue.
    pub mark_active: Vec<QueuedRow>,
    /// The events of the next transaction, if there is one.
    pub send: Option<Vec<SendingEventType>>,
}

/// The first `n` elements of `s`, or all of them.
pub open spec fn batch<A>(s: Seq<A>, n: int) -> Seq<A> {
    if s.len() <= n {
        s
    } else {
        s.subrange(0, n)
    }
}

/// Records that `dest` acknowledged its transaction. Its active rows are
/// done with. Of the rows queued meanwhile the first thirty make the next
/// transaction and the entry is `Running`; where nothing is queued the
/// entry is dropped.
pub fn transaction_succeeded(
    status: &mut StatusTable,
    dest: &OutgoingDestination,
    queued: Vec<QueuedRow>,
) -> (r: Continuation)
    requires
        old(status).wf(),
    ensures
        final(status).wf(),
        statuses_valid(old(status).map()) ==> statuses_valid(final(status).map()),
        row_views(r.mark_active@) == batch(row_views(queued@), 30),
        queued@.len() == 0 ==> r.send is None && final(status).map() == old(status).map().remove(
            dest@,
        ),
        queued@.len() > 0 ==> final(status).map() == old(status).map().insert(
            dest@,
            TransactionStatus::Running,
        ) && (r.send matches Some(events) && payloads(events@) == row_events(
            batch(row_views(queued@), 30),
        )),
{
    let mut queued = queued;
    if queued.len() > QUEUE_BATCH {
        let ghost all = row_views(queued@);
        queued.truncate(QUEUE_BATCH);
        assert(row_views(queued@) =~= all.subrange(0, 30));
    }
    if queued.len() == 0 {
        let _ = status.remove(dest);
        return Continuation { mark_active: queued, send: None };
    }
    status.insert(dest.key_clone(), TransactionStatus::Running);
    let mut events: Vec<SendingEventType> = Vec::new();
    let mut i: usize = 0;
    while i < queued.len()
        invariant
            i <= queued.len(),
            events@.len() == i,
            forall|j: int| 0 <= j < i ==> (#[trigger] events@[j])@ == queued@[j].event@,
        decreases queued.len() - i,
    {
        events.push(queued[i].event.duplicate());
        i = i + 1;
    }
    assert(payloads(events@) =~= row_events(row_views(queued@)));
    Continuation { mark_active: queued, send: Some(events) }
}

/// Cuts the backoff of `dest` short, if it is backing off and has not been
/// woken yet. Returns whether the timer is to fire now; the waker is used
/// up by it.
pub fn wake(status: &mut StatusTable, dest: &OutgoingDestination) -> (fire: bool)
    requires
        old(status).wf(),
    ensures
        final(status).wf(),
        statuses_valid(old(status).map()) ==> statuses_valid(final(status).map()),
        fire == (old(status).map().contains_key(dest@) && (old(status).map()[dest@] matches TransactionStatus::Failed {
            waker: true,
            ..
        })),
        fire ==> final(status).map() == old(status).map().insert(
            dest@,
            TransactionStatus::Failed {
                failures: failures_after(old(status).map()[dest@]) as u32,
                waker: false,
            },
        ),
        !fire ==> final(status).map() == old(status).map(),
{
    let current = match status.get(dest) {
        Some(s) => Some(*s),
        None => None,
    };
    match current {
        Some(TransactionStatus::Failed { failures, waker: true }) => {
            status.insert(dest.key_clone(), TransactionStatus::Failed { failures, waker: false });
            true
        },
        _ => false,
    }
}

/// Forgets `dest`: its transaction was given up.
pub fn drop_destination(status: &mut StatusTable, dest: &OutgoingDestination)
    requires
        old(status).wf(),
    ensures
        final(status).wf(),
        final(status).map() == old(status).map().remove(dest@),
        statuses_valid(old(status).map()) ==> statuses_valid(final(status).map()),
{
    let _ = status.remove(dest);
}

} // verus!
