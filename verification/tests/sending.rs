use conduwuit_core::assoc::AssocMap;
use conduwuit_core::sending::handler::{edus_wanted, event_expected, step, SenderAction, SenderEvent};
use conduwuit_core::sending::startup::{startup_netburst, ActiveRow};
use conduwuit_core::sending::status::{
    backoff_secs, drop_destination, mark_failed_and_backoff, select_events,
    select_events_current, transaction_succeeded, wake, QueuedRow, StatusTable,
    TransactionPrepOutcome, TransactionStatus,
};
use conduwuit_core::sending::transaction::transaction_id;
use conduwuit_core::sending::{OutgoingDestination, SendingEventType};

fn peer(name: &str) -> OutgoingDestination {
    OutgoingDestination::Normal(name.to_owned())
}

fn pdu(id: &[u8]) -> SendingEventType {
    SendingEventType::Pdu(id.to_vec())
}

fn row(id: &[u8], key: &[u8]) -> QueuedRow {
    QueuedRow { event: pdu(id), key: key.to_vec() }
}

fn status_of(table: &StatusTable, dest: &OutgoingDestination) -> Option<TransactionStatus> {
    table.get(dest).copied()
}

#[test]
fn prefix_of_a_server() {
    assert_eq!(peer("example.org").get_prefix(), b"example.org\xff".to_vec());
}

#[test]
fn prefix_of_an_appservice() {
    let dest = OutgoingDestination::Appservice("bridge".to_owned());
    assert_eq!(dest.get_prefix(), b"+bridge\xff".to_vec());
}

#[test]
fn prefix_of_a_push_gateway() {
    let dest = OutgoingDestination::Push("@u:x".to_owned(), "key1".to_owned());
    assert_eq!(dest.get_prefix(), b"$@u:x\xffkey1\xff".to_vec());
}

#[test]
fn prefix_keeps_utf8() {
    let dest = OutgoingDestination::Appservice("\u{e9}".to_owned());
    assert_eq!(dest.get_prefix(), vec![b'+', 0xC3, 0xA9, 0xFF]);
}

#[test]
fn destinations_are_described_with_quoted_names() {
    assert_eq!(peer("example.org").describe(), "Matrix Server (\"example.org\")");
    assert_eq!(
        OutgoingDestination::Appservice("a\"b".to_owned()).describe(),
        "Appservice (ID \"a\\\"b\")"
    );
    assert_eq!(
        OutgoingDestination::Push("@u:x".to_owned(), "k".to_owned()).describe(),
        "User Push Service (for \"@u:x\", with key \"k\")"
    );
}

#[test]
fn backoff_grows_with_the_square_of_failures() {
    assert_eq!(backoff_secs(0), 0);
    assert_eq!(backoff_secs(1), 30);
    assert_eq!(backoff_secs(2), 120);
    assert_eq!(backoff_secs(3), 270);
    assert_eq!(backoff_secs(5), 750);
    assert_eq!(backoff_secs(53), 84_270);
}

#[test]
fn backoff_stops_at_one_day() {
    assert_eq!(backoff_secs(54), 86_400);
    assert_eq!(backoff_secs(55), 86_400);
    assert_eq!(backoff_secs(1_000_000), 86_400);
    assert_eq!(backoff_secs(u32::MAX), 86_400);
}

#[test]
fn failures_count_up_through_retries() {
    let dest = peer("p.example");
    let mut table: StatusTable = AssocMap::new();
    assert_eq!(select_events_current(&dest, &mut table, true), (true, false, false));
    assert_eq!(status_of(&table, &dest), Some(TransactionStatus::Running));

    assert_eq!(mark_failed_and_backoff(&mut table, &dest), 30);
    assert_eq!(status_of(&table, &dest), Some(TransactionStatus::Failed { failures: 1, waker: true }));

    assert_eq!(select_events_current(&dest, &mut table, false), (true, true, false));
    assert_eq!(status_of(&table, &dest), Some(TransactionStatus::Retrying { failures: 1 }));

    assert_eq!(mark_failed_and_backoff(&mut table, &dest), 120);
    assert_eq!(status_of(&table, &dest), Some(TransactionStatus::Failed { failures: 2, waker: true }));

    assert_eq!(select_events_current(&dest, &mut table, false), (true, true, false));
    assert_eq!(mark_failed_and_backoff(&mut table, &dest), 270);
    assert_eq!(status_of(&table, &dest), Some(TransactionStatus::Failed { failures: 3, waker: true }));
}

#[test]
fn fresh_event_for_a_busy_destination_starts_nothing() {
    let dest = peer("p.example");
    let mut table: StatusTable = AssocMap::new();
    table.insert(peer("p.example"), TransactionStatus::Running);
    assert_eq!(select_events_current(&dest, &mut table, true), (false, false, false));
    table.insert(peer("p.example"), TransactionStatus::Retrying { failures: 2 });
    assert_eq!(select_events_current(&dest, &mut table, true), (false, false, false));
    assert_eq!(status_of(&table, &dest), Some(TransactionStatus::Retrying { failures: 2 }));
}

#[test]
fn fresh_event_for_a_failed_destination_wakes_it() {
    let dest = peer("p.example");
    let mut table: StatusTable = AssocMap::new();
    table.insert(peer("p.example"), TransactionStatus::Failed { failures: 5, waker: true });
    assert_eq!(select_events_current(&dest, &mut table, true), (true, false, true));
    let prepared = select_events(&dest, vec![row(b"1", b"k1")], &mut table, true, &Vec::new(), None);
    assert!(matches!(prepared.outcome, TransactionPrepOutcome::Wake(d) if d == dest));
    assert!(prepared.mark_active.is_empty());
    assert_eq!(status_of(&table, &dest), Some(TransactionStatus::Failed { failures: 5, waker: true }));
}

#[test]
fn explicit_wake_retries_with_the_same_count_and_success_clears() {
    let dest = peer("p.example");
    let mut table: StatusTable = AssocMap::new();
    table.insert(peer("p.example"), TransactionStatus::Failed { failures: 5, waker: true });
    assert_eq!(backoff_secs(5), 750);

    let action = step(
        &mut table,
        SenderEvent::Queued { dest: peer("p.example"), row: row(b"9", b"k9"), edus: None },
    );
    assert!(matches!(action, SenderAction::Wake { dest: d } if d == dest));

    let action = step(&mut table, SenderEvent::Woken { dest: peer("p.example") });
    assert!(matches!(action, SenderAction::Fire { dest: d } if d == dest));
    assert_eq!(status_of(&table, &dest), Some(TransactionStatus::Failed { failures: 5, waker: false }));

    let action = step(&mut table, SenderEvent::Woken { dest: peer("p.example") });
    assert!(matches!(action, SenderAction::Nothing));

    let action = step(
        &mut table,
        SenderEvent::TimerFired { dest: peer("p.example"), active: vec![pdu(b"1"), pdu(b"2")] },
    );
    match action {
        SenderAction::Send { dest: d, events, mark_active, latest_educount, delete_active } => {
            assert_eq!(d, dest);
            assert_eq!(events, vec![pdu(b"1"), pdu(b"2")]);
            assert!(mark_active.is_empty());
            assert_eq!(latest_educount, None);
            assert!(!delete_active);
        },
        _ => panic!("the active rows are sent again"),
    }
    assert_eq!(status_of(&table, &dest), Some(TransactionStatus::Retrying { failures: 5 }));

    let action = step(&mut table, SenderEvent::Succeeded { dest: peer("p.example"), queued: Vec::new() });
    assert!(matches!(action, SenderAction::Delete { dest: d } if d == dest));
    assert_eq!(status_of(&table, &dest), None);
}

#[test]
fn failure_of_a_transaction_backs_off() {
    let dest = peer("p.example");
    let mut table: StatusTable = AssocMap::new();
    let action = step(
        &mut table,
        SenderEvent::Queued { dest: peer("p.example"), row: row(b"1", b"k1"), edus: None },
    );
    match action {
        SenderAction::Send { events, mark_active, delete_active, .. } => {
            assert_eq!(events, vec![pdu(b"1")]);
            assert_eq!(mark_active.len(), 1);
            assert_eq!(mark_active[0].key, b"k1".to_vec());
            assert!(!delete_active);
        },
        _ => panic!("a destination without a transaction starts one"),
    }
    let failed = SenderEvent::Failed { dest: peer("p.example") };
    assert!(event_expected(&table, &failed));
    let action = step(&mut table, failed);
    assert!(matches!(action, SenderAction::Backoff { dest: d, secs: 30 } if d == dest));
    assert_eq!(status_of(&table, &dest), Some(TransactionStatus::Failed { failures: 1, waker: true }));
}

#[test]
fn events_that_cannot_happen_are_told_apart() {
    let mut table: StatusTable = AssocMap::new();
    assert!(!event_expected(&table, &SenderEvent::Failed { dest: peer("p.example") }));
    assert!(!event_expected(
        &table,
        &SenderEvent::TimerFired { dest: peer("p.example"), active: Vec::new() }
    ));
    table.insert(peer("p.example"), TransactionStatus::Running);
    assert!(event_expected(&table, &SenderEvent::Failed { dest: peer("p.example") }));
    assert!(!event_expected(
        &table,
        &SenderEvent::TimerFired { dest: peer("p.example"), active: Vec::new() }
    ));
    table.insert(peer("p.example"), TransactionStatus::Retrying { failures: u32::MAX });
    assert!(event_expected(&table, &SenderEvent::Failed { dest: peer("p.example") }));
    table.insert(peer("p.example"), TransactionStatus::Failed { failures: 1, waker: true });
    assert!(!event_expected(&table, &SenderEvent::Failed { dest: peer("p.example") }));
    assert!(event_expected(&table, &SenderEvent::Woken { dest: peer("q.example") }));
}

#[test]
fn retry_sends_the_active_rows_and_nothing_else() {
    let dest = peer("p.example");
    let mut table: StatusTable = AssocMap::new();
    table.insert(peer("p.example"), TransactionStatus::Failed { failures: 1, waker: false });
    let active = vec![pdu(b"1"), SendingEventType::Flush, SendingEventType::Edu(b"{}".to_vec())];
    let prepared = select_events(
        &dest,
        vec![row(b"3", b"k3")],
        &mut table,
        false,
        &active,
        Some((vec![b"{\"new\":1}".to_vec()], 77)),
    );
    match prepared.outcome {
        TransactionPrepOutcome::Send(events) => {
            assert_eq!(events, active);
            assert_eq!(transaction_id(&events), transaction_id(&active));
        },
        _ => panic!("a retry sends"),
    }
    assert_eq!(prepared.latest_educount, None);
    assert!(prepared.mark_active.is_empty());
    assert_eq!(status_of(&table, &dest), Some(TransactionStatus::Retrying { failures: 1 }));
}

#[test]
fn first_transaction_sends_new_rows_then_edus() {
    let dest = peer("p.example");
    let mut table: StatusTable = AssocMap::new();
    let prepared = select_events(
        &dest,
        vec![row(b"3", b"k3")],
        &mut table,
        true,
        &vec![pdu(b"1")],
        Some((vec![b"{}".to_vec()], 77)),
    );
    match prepared.outcome {
        TransactionPrepOutcome::Send(events) => {
            assert_eq!(events, vec![pdu(b"3"), SendingEventType::Edu(b"{}".to_vec())])
        },
        _ => panic!("a fresh destination sends"),
    }
    assert_eq!(prepared.latest_educount, Some(77));
    assert_eq!(prepared.mark_active.len(), 1);
}

#[test]
fn failure_count_stops_at_the_largest_number() {
    let dest = peer("p.example");
    let mut table: StatusTable = AssocMap::new();
    table.insert(peer("p.example"), TransactionStatus::Retrying { failures: u32::MAX });
    assert_eq!(mark_failed_and_backoff(&mut table, &dest), 86_400);
    assert_eq!(status_of(&table, &dest), Some(TransactionStatus::Failed { failures: u32::MAX, waker: true }));
}

#[test]
fn only_an_acknowledged_transaction_deletes_rows() {
    let mut table: StatusTable = AssocMap::new();
    let queued = vec![row(b"2", b"k2")];
    table.insert(peer("p.example"), TransactionStatus::Running);
    let action = step(&mut table, SenderEvent::Succeeded { dest: peer("p.example"), queued });
    assert!(matches!(action, SenderAction::Send { delete_active: true, .. }));
    let action = step(&mut table, SenderEvent::Failed { dest: peer("p.example") });
    assert!(matches!(action, SenderAction::Backoff { .. }));
}

#[test]
fn edus_go_to_servers_only() {
    let dest = OutgoingDestination::Appservice("bridge".to_owned());
    let mut table: StatusTable = AssocMap::new();
    let prepared = select_events(
        &dest,
        vec![row(b"1", b"k1")],
        &mut table,
        true,
        &vec![pdu(b"0")],
        Some((vec![b"{}".to_vec()], 5)),
    );
    match prepared.outcome {
        TransactionPrepOutcome::Send(events) => assert_eq!(events, vec![pdu(b"1")]),
        _ => panic!("a fresh destination sends"),
    }
    assert_eq!(prepared.latest_educount, None);
}

#[test]
fn success_takes_at_most_thirty_queued_rows() {
    let dest = peer("p.example");
    let mut table: StatusTable = AssocMap::new();
    table.insert(peer("p.example"), TransactionStatus::Retrying { failures: 4 });
    let queued: Vec<QueuedRow> = (0..40u8).map(|i| row(&[i], &[b'k', i])).collect();
    let next = transaction_succeeded(&mut table, &dest, queued);
    assert_eq!(next.mark_active.len(), 30);
    let events = next.send.unwrap();
    assert_eq!(events.len(), 30);
    assert_eq!(events[0], pdu(&[0]));
    assert_eq!(events[29], pdu(&[29]));
    assert_eq!(next.mark_active[29].key, vec![b'k', 29]);
    assert_eq!(status_of(&table, &dest), Some(TransactionStatus::Running));
}

#[test]
fn success_with_exactly_thirty_rows_takes_all() {
    let dest = peer("p.example");
    let mut table: StatusTable = AssocMap::new();
    table.insert(peer("p.example"), TransactionStatus::Running);
    let queued: Vec<QueuedRow> = (0..30u8).map(|i| row(&[i], &[i])).collect();
    let next = transaction_succeeded(&mut table, &dest, queued);
    assert_eq!(next.send.unwrap().len(), 30);
}

#[test]
fn wake_is_used_up_once() {
    let dest = peer("p.example");
    let mut table: StatusTable = AssocMap::new();
    assert!(!wake(&mut table, &dest));
    table.insert(peer("p.example"), TransactionStatus::Failed { failures: 2, waker: true });
    assert!(wake(&mut table, &dest));
    assert!(!wake(&mut table, &dest));
    assert_eq!(status_of(&table, &dest), Some(TransactionStatus::Failed { failures: 2, waker: false }));
    drop_destination(&mut table, &dest);
    assert_eq!(status_of(&table, &dest), None);
}

fn active(key: &[u8], dest: &str, id: &[u8]) -> ActiveRow {
    ActiveRow { key: key.to_vec(), destination: peer(dest), event: pdu(id), pending: false }
}

fn pending(key: &[u8], dest: &str, id: &[u8]) -> ActiveRow {
    ActiveRow { key: key.to_vec(), destination: peer(dest), event: pdu(id), pending: true }
}

#[test]
fn netburst_keeps_the_first_rows_of_each_destination() {
    let rows = vec![
        active(b"k1", "a", b"1"),
        active(b"k2", "b", b"2"),
        active(b"k3", "a", b"3"),
        active(b"k4", "a", b"4"),
        active(b"k5", "b", b"5"),
    ];
    let burst = startup_netburst(&rows, 2);
    assert_eq!(burst.transactions.get(&peer("a")), Some(&vec![pdu(b"1"), pdu(b"3")]));
    assert_eq!(burst.transactions.get(&peer("b")), Some(&vec![pdu(b"2"), pdu(b"5")]));
    assert_eq!(burst.dropped, vec![b"k4".to_vec()]);
    assert_eq!(burst.status.get(&peer("a")), Some(&TransactionStatus::Running));
    assert_eq!(burst.status.get(&peer("b")), Some(&TransactionStatus::Running));
    assert_eq!(burst.status.len(), 2);
}

#[test]
fn netburst_with_negative_limit_keeps_everything() {
    let rows = vec![active(b"k1", "a", b"1"), active(b"k2", "a", b"2"), active(b"k3", "a", b"3")];
    let burst = startup_netburst(&rows, -1);
    assert_eq!(burst.transactions.get(&peer("a")).map(Vec::len), Some(3));
    assert!(burst.dropped.is_empty());
}

#[test]
fn netburst_with_limit_zero_drops_everything_but_still_starts() {
    let rows = vec![active(b"k1", "a", b"1"), active(b"k2", "a", b"2")];
    let burst = startup_netburst(&rows, 0);
    assert_eq!(burst.transactions.get(&peer("a")), Some(&Vec::new()));
    assert_eq!(burst.dropped, vec![b"k1".to_vec(), b"k2".to_vec()]);
    assert_eq!(burst.status.get(&peer("a")), Some(&TransactionStatus::Running));
}

#[test]
fn netburst_reloads_pending_rows_after_active_rows() {
    let rows = vec![
        active(b"a1", "a", b"1"),
        active(b"a2", "a", b"2"),
        pending(b"q3", "a", b"3"),
        pending(b"q4", "a", b"4"),
        pending(b"q5", "b", b"5"),
    ];
    let burst = startup_netburst(&rows, 3);
    assert_eq!(burst.transactions.get(&peer("a")), Some(&vec![pdu(b"1"), pdu(b"2"), pdu(b"3")]));
    assert_eq!(burst.transactions.get(&peer("b")), Some(&vec![pdu(b"5")]));
    assert!(burst.dropped.is_empty());
    assert_eq!(burst.dropped_pending, vec![b"q4".to_vec()]);
    let marked: Vec<Vec<u8>> = burst.mark_active.iter().map(|r| r.key.clone()).collect();
    assert_eq!(marked, vec![b"q3".to_vec(), b"q5".to_vec()]);
    assert_eq!(burst.mark_active[0].event, pdu(b"3"));
}

#[test]
fn a_turn_leaves_other_destinations_alone() {
    let mut table: StatusTable = AssocMap::new();
    table.insert(peer("a"), TransactionStatus::Running);
    table.insert(peer("b"), TransactionStatus::Failed { failures: 3, waker: true });
    table.insert(peer("c"), TransactionStatus::Retrying { failures: 2 });
    step(&mut table, SenderEvent::Failed { dest: peer("a") });
    step(&mut table, SenderEvent::Succeeded { dest: peer("c"), queued: Vec::new() });
    step(&mut table, SenderEvent::Queued { dest: peer("d"), row: row(b"1", b"k"), edus: None });
    assert_eq!(status_of(&table, &peer("a")), Some(TransactionStatus::Failed { failures: 1, waker: true }));
    assert_eq!(status_of(&table, &peer("b")), Some(TransactionStatus::Failed { failures: 3, waker: true }));
    assert_eq!(status_of(&table, &peer("c")), None);
    assert_eq!(status_of(&table, &peer("d")), Some(TransactionStatus::Running));
    assert_eq!(table.len(), 3);
}

#[test]
fn ephemeral_events_are_wanted_only_for_a_server_at_rest() {
    let mut table: StatusTable = AssocMap::new();
    assert!(edus_wanted(&table, &peer("a")));
    assert!(!edus_wanted(&table, &OutgoingDestination::Appservice("bridge".to_owned())));
    table.insert(peer("a"), TransactionStatus::Running);
    assert!(!edus_wanted(&table, &peer("a")));
    table.insert(peer("a"), TransactionStatus::Failed { failures: 1, waker: true });
    assert!(!edus_wanted(&table, &peer("a")));
}
