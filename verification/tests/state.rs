use conduwuit_core::assoc::AssocMap;
use conduwuit_core::state::compress::{compress_state_event, parse_compressed_state_event};
use conduwuit_core::state::delta::{apply_delta, contains_bytes, state_delta};
use conduwuit_core::state::resolve::{
    fork_state, lower_state, resolve_state, starting_events, ShortState, StateMap,
};
use conduwuit_core::state::short::{ShortIds, StateKey};

fn key(kind: &str, state_key: &str) -> StateKey {
    StateKey { event_type: kind.to_owned(), state_key: state_key.to_owned() }
}

#[test]
fn short_ids_are_given_in_rising_order_from_one() {
    let mut dict: ShortIds<StateKey> = ShortIds::new();
    assert_eq!(dict.get(&key("m.room.create", "")), None);
    assert_eq!(dict.get_or_create(&key("m.room.create", "")), Some(1));
    assert_eq!(dict.get_or_create(&key("m.room.member", "@a:x")), Some(2));
    assert_eq!(dict.get_or_create(&key("m.room.member", "@b:x")), Some(3));
    assert_eq!(dict.next, 4);
}

#[test]
fn short_id_of_a_key_is_the_same_on_every_call() {
    let mut dict: ShortIds<StateKey> = ShortIds::new();
    let first = dict.get_or_create(&key("m.room.member", "@a:x"));
    assert!(first.is_some());
    dict.get_or_create(&key("m.room.member", "@b:x"));
    dict.get_or_create(&key("m.room.topic", ""));
    assert_eq!(dict.get_or_create(&key("m.room.member", "@a:x")), first);
    assert_eq!(dict.get(&key("m.room.member", "@a:x")), first);
    assert_eq!(dict.next, 4);
}

#[test]
fn distinct_keys_have_distinct_short_ids() {
    let mut dict: ShortIds<StateKey> = ShortIds::new();
    let keys = [key("a", "b"), key("ab", ""), key("", "ab"), key("a", "B"), key("b", "a")];
    let mut seen = Vec::new();
    for k in &keys {
        let id = dict.get_or_create(k).unwrap();
        assert!(!seen.contains(&id));
        seen.push(id);
    }
}

#[test]
fn short_ids_lead_back_to_their_keys() {
    let mut dict: ShortIds<String> = ShortIds::new();
    let a = dict.get_or_create(&"$a".to_owned()).unwrap();
    let b = dict.get_or_create(&"$b".to_owned()).unwrap();
    assert_eq!(dict.key_of(a), Some(&"$a".to_owned()));
    assert_eq!(dict.key_of(b), Some(&"$b".to_owned()));
    assert_eq!(dict.key_of(0), None);
    assert_eq!(dict.key_of(99), None);
}

#[test]
fn compressed_state_event_is_sixteen_big_endian_bytes() {
    assert_eq!(
        compress_state_event(1, 0x0102030405060708),
        vec![0, 0, 0, 0, 0, 0, 0, 1, 1, 2, 3, 4, 5, 6, 7, 8]
    );
    assert_eq!(compress_state_event(u64::MAX, 0), [vec![0xff; 8], vec![0; 8]].concat());
    let mut expected = 258u64.to_be_bytes().to_vec();
    expected.extend_from_slice(&70_000u64.to_be_bytes());
    assert_eq!(compress_state_event(258, 70_000), expected);
}

#[test]
fn compressed_state_event_unpacks_to_what_was_packed() {
    for (a, b) in [(0, 0), (1, 2), (u64::MAX, 1 << 40), (0xdead_beef, u64::MAX)] {
        assert_eq!(parse_compressed_state_event(&compress_state_event(a, b)), Some((a, b)));
    }
    assert_eq!(parse_compressed_state_event(&vec![0; 15]), None);
    assert_eq!(parse_compressed_state_event(&vec![0; 17]), None);
    assert_eq!(parse_compressed_state_event(&Vec::new()), None);
}

#[test]
fn fork_state_drops_unknown_short_keys() {
    let mut dict: ShortIds<StateKey> = ShortIds::new();
    let create = dict.get_or_create(&key("m.room.create", "")).unwrap();
    let member = dict.get_or_create(&key("m.room.member", "@a:x")).unwrap();
    let mut state: ShortState = AssocMap::new();
    state.insert(member, "$member".to_owned());
    state.insert(77, "$orphan".to_owned());
    state.insert(create, "$create".to_owned());
    let forked = fork_state(&dict, &state);
    assert_eq!(forked.len(), 2);
    assert_eq!(forked.get(&key("m.room.create", "")), Some(&"$create".to_owned()));
    assert_eq!(forked.get(&key("m.room.member", "@a:x")), Some(&"$member".to_owned()));
    assert_eq!(starting_events(&state), vec!["$member".to_owned(), "$orphan".to_owned(), "$create".to_owned()]);
}

#[test]
fn lowering_gives_new_keys_new_short_ids() {
    let mut dict: ShortIds<StateKey> = ShortIds::new();
    let known = dict.get_or_create(&key("m.room.create", "")).unwrap();
    let mut state: StateMap = AssocMap::new();
    state.insert(key("m.room.topic", ""), "$topic".to_owned());
    state.insert(key("m.room.create", ""), "$create".to_owned());
    let lowered = lower_state(&mut dict, &state).unwrap();
    assert_eq!(lowered.len(), 2);
    assert_eq!(lowered[0].shortstatekey, 2);
    assert_eq!(lowered[0].event_id, "$topic");
    assert_eq!(lowered[1].shortstatekey, known);
    assert_eq!(dict.get(&key("m.room.topic", "")), Some(2));
}

#[test]
fn resolved_state_is_lowered_and_packed() {
    let mut state_keys: ShortIds<StateKey> = ShortIds::new();
    let mut event_ids: ShortIds<String> = ShortIds::new();
    event_ids.get_or_create(&"$earlier".to_owned());
    let mut resolved: StateMap = AssocMap::new();
    resolved.insert(key("m.room.create", ""), "$create".to_owned());
    resolved.insert(key("m.room.member", "@a:x"), "$earlier".to_owned());
    let packed = resolve_state(&mut state_keys, &mut event_ids, &resolved).unwrap();
    assert_eq!(packed, vec![compress_state_event(1, 2), compress_state_event(2, 1)]);
    let again = resolve_state(&mut state_keys, &mut event_ids, &resolved).unwrap();
    assert_eq!(again, packed);
}

#[test]
fn lowering_and_forking_undo_each_other() {
    let mut dict: ShortIds<StateKey> = ShortIds::new();
    let mut state: StateMap = AssocMap::new();
    state.insert(key("m.room.create", ""), "$create".to_owned());
    state.insert(key("m.room.member", "@a:x"), "$member".to_owned());
    let lowered = lower_state(&mut dict, &state).unwrap();
    let mut short: ShortState = AssocMap::new();
    for entry in lowered {
        short.insert(entry.shortstatekey, entry.event_id);
    }
    let back = fork_state(&dict, &short);
    assert_eq!(back.len(), 2);
    assert_eq!(back.get(&key("m.room.create", "")), Some(&"$create".to_owned()));
    assert_eq!(back.get(&key("m.room.member", "@a:x")), Some(&"$member".to_owned()));
}

#[test]
fn delta_lists_what_is_added_and_removed() {
    let parent = vec![compress_state_event(1, 1), compress_state_event(2, 2), compress_state_event(3, 3)];
    let state = vec![compress_state_event(3, 3), compress_state_event(2, 9), compress_state_event(1, 1), compress_state_event(4, 4)];
    let delta = state_delta(&parent, &state);
    assert_eq!(delta.added, vec![compress_state_event(2, 9), compress_state_event(4, 4)]);
    assert_eq!(delta.removed, vec![compress_state_event(2, 2)]);
    let restored = apply_delta(&parent, &delta);
    assert_eq!(
        restored,
        vec![compress_state_event(1, 1), compress_state_event(3, 3), compress_state_event(2, 9), compress_state_event(4, 4)]
    );
    assert_eq!(restored.len(), state.len());
    assert!(state.iter().all(|e| contains_bytes(&restored, e)));
    assert!(!contains_bytes(&restored, &compress_state_event(2, 2)));
}

#[test]
fn delta_between_equal_snapshots_is_empty() {
    let state = vec![compress_state_event(1, 1), compress_state_event(2, 2)];
    let delta = state_delta(&state, &state);
    assert!(delta.added.is_empty());
    assert!(delta.removed.is_empty());
    assert_eq!(apply_delta(&state, &delta), state);
    let from_nothing = state_delta(&Vec::new(), &state);
    assert_eq!(from_nothing.added, state);
    assert_eq!(apply_delta(&Vec::new(), &from_nothing), state);
}

#[test]
fn used_up_short_ids_give_nothing_new_and_keep_what_is_there() {
    let mut dict: ShortIds<StateKey> = ShortIds::new();
    let known = dict.get_or_create(&key("m.room.create", ""));
    dict.next = u64::MAX;
    assert_eq!(dict.get_or_create(&key("m.room.create", "")), known);
    assert_eq!(dict.get_or_create(&key("m.room.topic", "")), None);
    assert_eq!(dict.get(&key("m.room.topic", "")), None);
    assert_eq!(dict.next, u64::MAX);

    let mut state: StateMap = AssocMap::new();
    state.insert(key("m.room.create", ""), "$create".to_owned());
    assert_eq!(lower_state(&mut dict, &state).map(|l| l.len()), Some(1));
    state.insert(key("m.room.topic", ""), "$topic".to_owned());
    assert!(lower_state(&mut dict, &state).is_none());
    let mut event_ids: ShortIds<String> = ShortIds::new();
    assert!(resolve_state(&mut dict, &mut event_ids, &state).is_none());
}
