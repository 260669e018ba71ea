//! What the sender does with the rows it finds when it starts.

use crate::assoc::{byte_views, clone_bytes, AssocMap, Key};
use crate::sending::status::{row_views, QueuedRow, StatusTable, TransactionStatus};
use crate::sending::{payloads, Destination, OutgoingDestination, Payload, SendingEventType};
use vstd::prelude::*;

verus! {

/// A row of the queue tables as found at startup: of the table of active
/// requests, or of the table of requests that were still pending.
#[derive(Debug)]
pub struct ActiveRow {
    pub key: Vec<u8>,
    pub destination: OutgoingDestination,
    pub event: SendingEventType,
    /// Whether the row was still pending, not yet active.
    pub pending: bool,
}

/// A row as a mathematical value.
pub struct Row {
    pub key: Seq<u8>,
    pub destination: Destination,
    pub event: Payload,
    pub pending: bool,
}

impl View for ActiveRow {
    type V = Row;

    open spec fn view(&self) -> Row {
        Row {
            key: self.key@,
            destination: self.destination@,
            event: self.event@,
            pending: self.pending,
        }
    }
}

/// The views of a list of rows.
pub open spec fn rows_view(rows: Seq<ActiveRow>) -> Seq<Row> {
    rows.map_values(|r: ActiveRow| r@)
}

/// The events of `rows` that are sent again to `d`: its rows in order, and
/// with a limit `keep` that is not negative, only the first `keep` of them.
pub open spec fn kept_for(rows: Seq<Row>, keep: int, d: Destination) -> Seq<Payload>
    decreases rows.len(),
{
    if rows.len() == 0 {
        Seq::empty()
    } else {
        let earlier = kept_for(rows.drop_last(), keep, d);
        let row = rows.last();
        if row.destination == d && (keep < 0 || earlier.len() < keep) {
            earlier.push(row.event)
        } else {
            earlier
        }
    }
}

/// Whether the last of `rows` is dropped: the limit is not negative, and
/// that many rows of its destination are kept already.
pub open spec fn last_dropped(rows: Seq<Row>, keep: int) -> bool
    recommends
        rows.len() > 0,
{
    keep >= 0 && kept_for(rows.drop_last(), keep, rows.last().destination).len() >= keep
}

/// The keys of the rows that are dropped, of the pending rows (with
/// `pending`) or of the active rows (without): with a limit that is not
/// negative, every row beyond the first `keep` of its destination.
pub open spec fn dropped_keys(rows: Seq<Row>, keep: int, pending: bool) -> Seq<Seq<u8>>
    decreases rows.len(),
{
    if rows.len() == 0 {
        Seq::empty()
    } else {
        let earlier = dropped_keys(rows.drop_last(), keep, pending);
        let row = rows.last();
        if last_dropped(rows, keep) && row.pending == pending {
            earlier.push(row.key)
        } else {
            earlier
        }
    }
}

/// The pending rows that are kept: they become active.
pub open spec fn activated(rows: Seq<Row>, keep: int) -> Seq<(Payload, Seq<u8>)>
    decreases rows.len(),
{
    if rows.len() == 0 {
        Seq::empty()
    } else {
        let earlier = activated(rows.drop_last(), keep);
        let row = rows.last();
        if !last_dropped(rows, keep) && row.pending {
            earlier.push((row.event, row.key))
        } else {
            earlier
        }
    }
}

/// Whether some row goes to `d`.
pub open spec fn seen(rows: Seq<Row>, d: Destination) -> bool {
    exists|i: int| 0 <= i < rows.len() && (#[trigger] rows[i]).destination == d
}

/// Nothing is kept for a destination without rows, and never more than the
/// limit.
pub proof fn lemma_kept_bounds(rows: Seq<Row>, keep: int, d: Destination)
    ensures
        !seen(rows, d) ==> kept_for(rows, keep, d).len() == 0,
        keep >= 0 ==> kept_for(rows, keep, d).len() <= keep,
        kept_for(rows, keep, d).len() <= rows.len(),
    decreases rows.len(),
{
    if rows.len() > 0 {
        lemma_kept_bounds(rows.drop_last(), keep, d);
        if !seen(rows, d) {
            assert(rows[rows.len() - 1].destination != d);
            if seen(rows.drop_last(), d) {
                let i = choose|i: int|
                    0 <= i < rows.drop_last().len() && (#[trigger] rows.drop_last()[i]).destination
                        == d;
                assert(rows[i].destination == d);
            }
        }
    }
}

proof fn lemma_seen_step(rows: Seq<Row>, n: int, d: Destination)
    requires
        0 <= n < rows.len(),
    ensures
        seen(rows.subrange(0, n + 1), d) <==> (seen(rows.subrange(0, n), d) || rows[n].destination
            == d),
{
    let a = rows.subrange(0, n);
    let b = rows.subrange(0, n + 1);
    if seen(b, d) {
        let i = choose|i: int| 0 <= i < b.len() && (#[trigger] b[i]).destination == d;
        if i < n {
            assert(a[i].destination == d);
        }
    }
    if seen(a, d) {
        let i = choose|i: int| 0 <= i < a.len() && (#[trigger] a[i]).destination == d;
        assert(b[i].destination == d);
    }
    if rows[n].destination == d {
        assert(b[n].destination == d);
    }
}

/// What the sender starts with.
#[derive(Debug)]
pub struct Netburst {
    /// For every destination with active rows, the events to send again.
    pub transactions: AssocMap<OutgoingDestination, Vec<SendingEventType>>,
    /// The keys of the active rows to delete.
    pub dropped: Vec<Vec<u8>>,
    /// The keys of the pending rows to delete.
    pub dropped_pending: Vec<Vec<u8>>,
    /// The pending rows that are sent: they are to be marked as active.
    pub mark_active: Vec<QueuedRow>,
    /// The table of destinations: each of them `Running`.
    pub status: StatusTable,
}

/// Sorts the rows found at startup by destination: the active rows and the
/// rows that were still pending, in the order given. With a limit `keep`
/// that is not negative, at most `keep` rows per destination are sent again
/// and the others are dropped. Every destination with a row gets a
/// transaction, even an empty one, and starts `Running`.
pub fn startup_netburst(rows: &Vec<ActiveRow>, keep: i64) -> (r: Netburst)
    ensures
        r.transactions.wf(),
        r.status.wf(),
        forall|d: Destination| #[trigger]
            r.transactions.map().contains_key(d) <==> seen(rows_view(rows@), d),
        forall|d: Destination| #[trigger]
            r.transactions.map().contains_key(d) ==> payloads(r.transactions.map()[d]@)
                == kept_for(rows_view(rows@), keep as int, d),
        byte_views(r.dropped@) == dropped_keys(rows_view(rows@), keep as int, false),
        byte_views(r.dropped_pending@) == dropped_keys(rows_view(rows@), keep as int, true),
        row_views(r.mark_active@) == activated(rows_view(rows@), keep as int),
        forall|d: Destination| #[trigger]
            r.status.map().contains_key(d) <==> seen(rows_view(rows@), d),
        forall|d: Destination| #[trigger]
            r.status.map().contains_key(d) ==> r.status.map()[d] == TransactionStatus::Running,
{
    let mut transactions: AssocMap<OutgoingDestination, Vec<SendingEventType>> = AssocMap::new();
    let mut dropped: Vec<Vec<u8>> = Vec::new();
    let mut dropped_pending: Vec<Vec<u8>> = Vec::new();
    let mut mark_active: Vec<QueuedRow> = Vec::new();
    let ghost all = rows_view(rows@);
    let mut i: usize = 0;
    assert(byte_views(dropped@) =~= dropped_keys(all.subrange(0, 0), keep as int, false));
    assert(byte_views(dropped_pending@) =~= dropped_keys(all.subrange(0, 0), keep as int, true));
    assert(row_views(mark_active@) =~= activated(all.subrange(0, 0), keep as int));
    while i < rows.len()
        invariant
            i <= rows.len(),
            all == rows_view(rows@),
            transactions.wf(),
            forall|d: Destination| #[trigger]
                transactions.map().contains_key(d) <==> seen(all.subrange(0, i as int), d),
            forall|d: Destination| #[trigger]
                transactions.map().contains_key(d) ==> payloads(transactions.map()[d]@)
                    == kept_for(all.subrange(0, i as int), keep as int, d),
            byte_views(dropped@) == dropped_keys(all.subrange(0, i as int), keep as int, false),
            byte_views(dropped_pending@) == dropped_keys(
                all.subrange(0, i as int),
                keep as int,
                true,
            ),
            row_views(mark_active@) == activated(all.subrange(0, i as int), keep as int),
        decreases rows.len() - i,
    {
        let row = &rows[i];
        let ghost before = all.subrange(0, i as int);
        let ghost after = all.subrange(0, i + 1);
        let ghost dest = row.destination@;
        let ghost old_map = transactions.map();
        proof {
            assert(after.drop_last() =~= before);
            assert(after.last() == all[i as int]);
            assert(all[i as int] == row@);
            lemma_kept_bounds(before, keep as int, dest);
        }
        let existing = transactions.remove(&row.destination);
        let mut list: Vec<SendingEventType> = match existing {
            Some(l) => l,
            None => Vec::new(),
        };
        assert(payloads(list@) =~= kept_for(before, keep as int, dest));
        if keep >= 0 && list.len() as u64 >= keep as u64 {
            if row.pending {
                let ghost old_dropped = byte_views(dropped_pending@);
                dropped_pending.push(clone_bytes(&row.key));
                assert(byte_views(dropped_pending@) =~= old_dropped.push(row.key@));
            } else {
                let ghost old_dropped = byte_views(dropped@);
                dropped.push(clone_bytes(&row.key));
                assert(byte_views(dropped@) =~= old_dropped.push(row.key@));
            }
        } else {
            let ghost old_list = payloads(list@);
            list.push(row.event.duplicate());
            assert(payloads(list@) =~= old_list.push(row.event@));
            if row.pending {
                let ghost old_marked = row_views(mark_active@);
                mark_active.push(QueuedRow { event: row.event.duplicate(), key: clone_bytes(&row.key) });
                assert(row_views(mark_active@) =~= old_marked.push((row.event@, row.key@)));
            }
        }
        transactions.insert(row.destination.key_clone(), list);
        proof {
            assert forall|d: Destination| #[trigger]
                transactions.map().contains_key(d) <==> seen(after, d) by {
                lemma_seen_step(all, i as int, d);
                assert(old_map.contains_key(d) <==> seen(before, d));
            }
            assert forall|d: Destination| #[trigger]
                transactions.map().contains_key(d) implies payloads(transactions.map()[d]@)
                == kept_for(after, keep as int, d) by {
                if d != dest {
                    assert(old_map.contains_key(d));
                    assert(transactions.map()[d] == old_map[d]);
                }
            }
        }
        i = i + 1;
    }
    assert(all.subrange(0, rows.len() as int) =~= all);
    let mut status: StatusTable = AssocMap::new();
    let mut j: usize = 0;
    while j < transactions.entries.len()
        invariant
            j <= transactions.entries.len(),
            transactions.wf(),
            status.wf(),
            forall|d: Destination| #[trigger]
                status.map().contains_key(d) <==> exists|k: int|
                    0 <= k < j && (#[trigger] transactions.entries@[k]).0@ == d,
            forall|d: Destination| #[trigger]
                status.map().contains_key(d) ==> status.map()[d] == TransactionStatus::Running,
        decreases transactions.entries.len() - j,
    {
        let ghost old_status = status.map();
        status.insert(transactions.entries[j].0.key_clone(), TransactionStatus::Running);
        proof {
            let dj = transactions.entries@[j as int].0@;
            assert forall|d: Destination| #[trigger]
                status.map().contains_key(d) <==> exists|k: int|
                    0 <= k < j + 1 && (#[trigger] transactions.entries@[k]).0@ == d by {
                if status.map().contains_key(d) {
                    if d == dj {
                        assert(transactions.entries@[j as int].0@ == d);
                    } else {
                        assert(old_status.contains_key(d));
                        let k = choose|k: int|
                            0 <= k < j && (#[trigger] transactions.entries@[k]).0@ == d;
                        assert(0 <= k < j + 1 && transactions.entries@[k].0@ == d);
                    }
                }
                if exists|k: int| 0 <= k < j + 1 && (#[trigger] transactions.entries@[k]).0@ == d {
                    let k = choose|k: int|
                        0 <= k < j + 1 && (#[trigger] transactions.entries@[k]).0@ == d;
                    if k < j {
                        assert(old_status.contains_key(d));
                    }
                }
            }
        }
        j = j + 1;
    }
    proof {
        assert forall|d: Destination| #[trigger]
            status.map().contains_key(d) <==> seen(all, d) by {
            if status.map().contains_key(d) {
                let k = choose|k: int|
                    0 <= k < j && (#[trigger] transactions.entries@[k]).0@ == d;
                crate::assoc::lemma_entry_in_map(transactions.entries@, k);
                assert(transactions.map().contains_key(d));
            }
            if seen(all, d) {
                assert(transactions.map().contains_key(d));
                let k = crate::assoc::key_index(transactions.entries@, d);
                assert(transactions.entries@[k].0@ == d);
            }
        }
    }
    Netburst { transactions, dropped, dropped_pending, mark_active, status }
}

} // verus!
