//! What surrounds state resolution: the forked states are turned from
//! short ids into `(type, state key)` maps before it, and its result is
//! lowered to short ids and compressed after it.
//!
//! The resolution itself is the state-resolution library's; the caller runs
//! it on what `fork_state` gives and hands its result to `resolve_state`.

use crate::assoc::{key_index, lemma_entry_in_map, lemma_same_key, AssocMap, Key};
use crate::state::compress::{compress_state_event, compressed};
use crate::state::short::{injective, ShortIds, StateKey};
use vstd::prelude::*;

verus! {

/// A state by `(type, state key)`: the id of the event that holds each
/// entry.
pub type StateMap = AssocMap<StateKey, String>;

/// A state by short state key.
pub type ShortState = AssocMap<u64, String>;

/// A map of event ids with the ids as mathematical values.
pub open spec fn id_views<A>(m: Map<A, String>) -> Map<A, Seq<char>> {
    m.map_values(|id: String| id@)
}

/// The state by `(type, state key)` that a state by short state key stands
/// for: every entry whose short state key the dictionary knows.
pub open spec fn forked(dict: Map<(Seq<char>, Seq<char>), u64>, state: Map<u64, Seq<char>>) -> Map<
    (Seq<char>, Seq<char>),
    Seq<char>,
> {
    Map::new(
        |k: (Seq<char>, Seq<char>)| dict.contains_key(k) && state.contains_key(dict[k]),
        |k: (Seq<char>, Seq<char>)| state[dict[k]],
    )
}

/// Turns a state by short state key into a state by `(type, state key)`.
/// An entry whose short state key is unknown is left out.
pub fn fork_state(dict: &ShortIds<StateKey>, state: &ShortState) -> (r: StateMap)
    requires
        dict.wf(),
        state.wf(),
    ensures
        r.wf(),
        id_views(r.map()) == forked(dict@, id_views(state.map())),
{
    let mut r: StateMap = AssocMap::new();
    let ghost entries = state.entries@;
    let mut i: usize = 0;
    while i < state.entries.len()
        invariant
            dict.wf(),
            state.wf(),
            r.wf(),
            entries == state.entries@,
            i <= entries.len(),
            forall|k: (Seq<char>, Seq<char>)| #[trigger]
                r.map().contains_key(k) <==> dict@.contains_key(k) && exists|j: int|
                    0 <= j < i && (#[trigger] entries[j]).0 == dict@[k],
            forall|k: (Seq<char>, Seq<char>), j: int|
                #![trigger r.map()[k], entries[j]]
                r.map().contains_key(k) && 0 <= j < i && entries[j].0 == dict@[k] ==> r.map()[k]@
                    == entries[j].1@,
        decreases entries.len() - i,
    {
        let short = state.entries[i].0;
        let ghost before = r.map();
        match dict.key_of(short) {
            Some(key) => {
                r.insert(key.key_clone(), state.entries[i].1.clone());
                proof {
                    assert forall|k: (Seq<char>, Seq<char>)| #[trigger]
                        r.map().contains_key(k) <==> dict@.contains_key(k) && exists|j: int|
                            0 <= j < i + 1 && (#[trigger] entries[j]).0 == dict@[k] by {
                        if r.map().contains_key(k) {
                            if k == key@ {
                                assert(entries[i as int].0 == dict@[k]);
                            } else {
                                assert(before.contains_key(k));
                                let j = choose|j: int|
                                    0 <= j < i && (#[trigger] entries[j]).0 == dict@[k];
                                assert(0 <= j < i + 1 && entries[j].0 == dict@[k]);
                            }
                        }
                        if dict@.contains_key(k) && exists|j: int|
                            0 <= j < i + 1 && (#[trigger] entries[j]).0 == dict@[k] {
                            let j = choose|j: int|
                                0 <= j < i + 1 && (#[trigger] entries[j]).0 == dict@[k];
                            if j == i {
                                assert(dict@[k] == dict@[key@]);
                                assert(k == key@);
                            } else {
                                assert(before.contains_key(k));
                            }
                        }
                    }
                    assert forall|k: (Seq<char>, Seq<char>), j: int|
                        #![trigger r.map()[k], entries[j]]
                        r.map().contains_key(k) && 0 <= j < i + 1 && entries[j].0
                            == dict@[k] implies r.map()[k]@ == entries[j].1@ by {
                        if k == key@ {
                            lemma_same_key(entries, j, i as int);
                        } else {
                            assert(before.contains_key(k));
                            if j == i {
                                assert(dict@[k] == dict@[key@]);
                            }
                        }
                    }
                }
            },
            None => {
                proof {
                    assert forall|k: (Seq<char>, Seq<char>)| #[trigger]
                        r.map().contains_key(k) <==> dict@.contains_key(k) && exists|j: int|
                            0 <= j < i + 1 && (#[trigger] entries[j]).0 == dict@[k] by {
                        if r.map().contains_key(k) {
                            let j = choose|j: int|
                                0 <= j < i && (#[trigger] entries[j]).0 == dict@[k];
                            assert(0 <= j < i + 1 && entries[j].0 == dict@[k]);
                        }
                        if dict@.contains_key(k) && exists|j: int|
                            0 <= j < i + 1 && (#[trigger] entries[j]).0 == dict@[k] {
                            let j = choose|j: int|
                                0 <= j < i + 1 && (#[trigger] entries[j]).0 == dict@[k];
                            if j == i {
                                assert(dict@[k] == short);
                            }
                        }
                    }
                }
            },
        }
        i = i + 1;
    }
    proof {
        let target = forked(dict@, id_views(state.map()));
        assert forall|k: (Seq<char>, Seq<char>)|
            id_views(r.map()).contains_key(k) <==> target.contains_key(k) by {
            if r.map().contains_key(k) {
                let j = choose|j: int| 0 <= j < i && (#[trigger] entries[j]).0 == dict@[k];
                lemma_entry_in_map(entries, j);
            }
            if target.contains_key(k) {
                let j = key_index(entries, dict@[k]);
                assert(entries[j].0 == dict@[k]);
            }
        }
        assert forall|k: (Seq<char>, Seq<char>)|
            id_views(r.map()).contains_key(k) implies id_views(r.map())[k] == target[k] by {
            let j = choose|j: int| 0 <= j < i && (#[trigger] entries[j]).0 == dict@[k];
            lemma_entry_in_map(entries, j);
            assert(r.map()[k]@ == entries[j].1@);
        }
        assert(id_views(r.map()) =~= target);
    }
    r
}

/// The ids of the events of a state: where its auth chain starts.
pub fn starting_events(state: &ShortState) -> (r: Vec<String>)
    ensures
        r@.len() == state.entries@.len(),
        forall|j: int| 0 <= j < r@.len() ==> (#[trigger] r@[j])@ == state.entries@[j].1@,
{
    let mut r: Vec<String> = Vec::new();
    let mut i: usize = 0;
    while i < state.entries.len()
        invariant
            i <= state.entries.len(),
            r@.len() == i,
            forall|j: int| 0 <= j < i ==> (#[trigger] r@[j])@ == state.entries@[j].1@,
        decreases state.entries.len() - i,
    {
        r.push(state.entries[i].1.clone());
        i = i + 1;
    }
    r
}

/// A resolved state entry in its stored form.
#[derive(Debug)]
pub struct LoweredEntry {
    pub shortstatekey: u64,
    pub event_id: String,
}

/// Lowers a state by `(type, state key)` to short state keys. A key that
/// the dictionary has not seen gets a short id; what the dictionary held
/// before, it holds afterwards.
///
/// `None` only where a key is new and the short ids are used up.
pub fn lower_state(dict: &mut ShortIds<StateKey>, state: &StateMap) -> (r: Option<
    Vec<LoweredEntry>,
>)
    requires
        old(dict).wf(),
        state.wf(),
    ensures
        final(dict).wf(),
        old(dict)@.submap_of(final(dict)@),
        final(dict).next <= old(dict).next + state.entries@.len(),
        old(dict).next + state.entries@.len() < u64::MAX ==> r is Some,
        r matches Some(lowered) ==> lowered@.len() == state.entries@.len() && forall|j: int|
            0 <= j < lowered@.len() ==> {
                let key = (#[trigger] state.entries@[j]).0@;
                &&& final(dict)@.contains_key(key)
                &&& lowered@[j].shortstatekey == final(dict)@[key]
                &&& lowered@[j].event_id@ == state.entries@[j].1@
            },
        r is None ==> final(dict).next == u64::MAX && exists|j: int|
            0 <= j < state.entries@.len() && !final(dict)@.contains_key(
                (#[trigger] state.entries@[j]).0@,
            ),
        forall|k: (Seq<char>, Seq<char>)| #[trigger]
            final(dict)@.contains_key(k) ==> old(dict)@.contains_key(k) || state.map().contains_key(
                k,
            ),
{
    let mut r: Vec<LoweredEntry> = Vec::new();
    let mut i: usize = 0;
    while i < state.entries.len()
        invariant
            dict.wf(),
            state.wf(),
            i <= state.entries@.len(),
            dict.next <= old(dict).next + i,
            old(dict)@.submap_of(dict@),
            r@.len() == i,
            forall|j: int|
                0 <= j < i ==> {
                    let key = (#[trigger] state.entries@[j]).0@;
                    &&& dict@.contains_key(key)
                    &&& r@[j].shortstatekey == dict@[key]
                    &&& r@[j].event_id@ == state.entries@[j].1@
                },
            forall|k: (Seq<char>, Seq<char>)| #[trigger]
                dict@.contains_key(k) ==> old(dict)@.contains_key(k) || state.map().contains_key(k),
        decreases state.entries.len() - i,
    {
        let ghost before = dict@;
        let shortstatekey = match dict.get_or_create(&state.entries[i].0) {
            Some(id) => id,
            None => {
                assert(!dict@.contains_key(state.entries@[i as int].0@));
                return None;
            },
        };
        proof {
            lemma_entry_in_map(state.entries@, i as int);
            assert forall|k: (Seq<char>, Seq<char>)| #[trigger]
                dict@.contains_key(k) implies old(dict)@.contains_key(k)
                || state.map().contains_key(k) by {
                if k != state.entries@[i as int].0@ {
                    assert(before.contains_key(k));
                }
            }
            assert forall|j: int| 0 <= j < i implies {
                let key = (#[trigger] state.entries@[j]).0@;
                &&& dict@.contains_key(key)
                &&& r@[j].shortstatekey == dict@[key]
            } by {
                let key = state.entries@[j].0@;
                assert(before.contains_key(key));
            }
        }
        r.push(LoweredEntry { shortstatekey, event_id: state.entries[i].1.clone() });
        i = i + 1;
    }
    Some(r)
}

/// The stored form of a resolved state: its entries lowered to short state
/// keys and short event ids and packed, entry by entry. A pair or an event
/// that has a short id keeps it; one that has none gets the next.
///
/// `None` only where a short id is needed and the short ids are used up.
pub fn resolve_state(
    state_keys: &mut ShortIds<StateKey>,
    event_ids: &mut ShortIds<String>,
    resolved: &StateMap,
) -> (r: Option<Vec<Vec<u8>>>)
    requires
        old(state_keys).wf(),
        old(event_ids).wf(),
        resolved.wf(),
    ensures
        final(state_keys).wf(),
        final(event_ids).wf(),
        old(state_keys)@.submap_of(final(state_keys)@),
        old(event_ids)@.submap_of(final(event_ids)@),
        final(state_keys).next <= old(state_keys).next + resolved.entries@.len(),
        final(event_ids).next <= old(event_ids).next + resolved.entries@.len(),
        forall|k: (Seq<char>, Seq<char>)| #[trigger]
            final(state_keys)@.contains_key(k) ==> old(state_keys)@.contains_key(k)
                || resolved.map().contains_key(k),
        forall|id: Seq<char>| #[trigger]
            final(event_ids)@.contains_key(id) ==> old(event_ids)@.contains_key(id) || exists|
                j: int,
            |
                0 <= j < resolved.entries@.len() && (#[trigger] resolved.entries@[j]).1@ == id,
        old(state_keys).next + resolved.entries@.len() < u64::MAX && old(event_ids).next
            + resolved.entries@.len() < u64::MAX ==> r is Some,
        r matches Some(packed) ==> packed@.len() == resolved.entries@.len() && forall|j: int|
            0 <= j < packed@.len() ==> {
                let entry = #[trigger] resolved.entries@[j];
                &&& final(state_keys)@.contains_key(entry.0@)
                &&& final(event_ids)@.contains_key(entry.1@)
                &&& packed@[j]@ == compressed(
                    final(state_keys)@[entry.0@],
                    final(event_ids)@[entry.1@],
                )
            },
        r is None ==> exists|j: int|
            0 <= j < resolved.entries@.len() && (!final(state_keys)@.contains_key(
                (#[trigger] resolved.entries@[j]).0@,
            ) || !final(event_ids)@.contains_key(resolved.entries@[j].1@)),
{
    let lowered = match lower_state(state_keys, resolved) {
        Some(l) => l,
        None => {
            return None;
        },
    };
    let mut r: Vec<Vec<u8>> = Vec::new();
    let mut i: usize = 0;
    while i < lowered.len()
        invariant
            event_ids.wf(),
            state_keys.wf(),
            old(state_keys)@.submap_of(state_keys@),
            state_keys.next <= old(state_keys).next + resolved.entries@.len(),
            forall|k: (Seq<char>, Seq<char>)| #[trigger]
                state_keys@.contains_key(k) ==> old(state_keys)@.contains_key(k)
                    || resolved.map().contains_key(k),
            forall|id: Seq<char>| #[trigger]
                event_ids@.contains_key(id) ==> old(event_ids)@.contains_key(id) || exists|j: int|
                    0 <= j < resolved.entries@.len() && (#[trigger] resolved.entries@[j]).1@ == id,
            i <= lowered@.len(),
            lowered@.len() == resolved.entries@.len(),
            forall|j: int|
                0 <= j < lowered@.len() ==> (#[trigger] lowered@[j]).event_id@
                    == resolved.entries@[j].1@,
            event_ids.next <= old(event_ids).next + i,
            old(event_ids)@.submap_of(event_ids@),
            r@.len() == i,
            forall|j: int|
                0 <= j < i ==> {
                    let entry = #[trigger] lowered@[j];
                    &&& event_ids@.contains_key(entry.event_id@)
                    &&& r@[j]@ == compressed(entry.shortstatekey, event_ids@[entry.event_id@])
                },
        decreases lowered.len() - i,
    {
        let ghost before = event_ids@;
        let shorteventid = match event_ids.get_or_create(&lowered[i].event_id) {
            Some(id) => id,
            None => {
                assert(!event_ids@.contains_key(resolved.entries@[i as int].1@)) by {
                    assert(lowered@[i as int].event_id@ == resolved.entries@[i as int].1@);
                }
                return None;
            },
        };
        proof {
            assert forall|id: Seq<char>| #[trigger] event_ids@.contains_key(id) implies old(
                event_ids,
            )@.contains_key(id) || exists|j: int|
                0 <= j < resolved.entries@.len() && (#[trigger] resolved.entries@[j]).1@ == id by {
                if id != lowered@[i as int].event_id@ {
                    assert(before.contains_key(id));
                } else {
                    assert(resolved.entries@[i as int].1@ == id);
                }
            }
            assert forall|j: int| 0 <= j < i implies {
                let entry = #[trigger] lowered@[j];
                &&& event_ids@.contains_key(entry.event_id@)
                &&& r@[j]@ == compressed(entry.shortstatekey, event_ids@[entry.event_id@])
            } by {
                assert(before.contains_key(lowered@[j].event_id@));
            }
        }
        r.push(compress_state_event(lowered[i].shortstatekey, shorteventid));
        i = i + 1;
    }
    proof {
        assert forall|j: int| 0 <= j < r@.len() implies {
            let entry = #[trigger] resolved.entries@[j];
            &&& state_keys@.contains_key(entry.0@)
            &&& event_ids@.contains_key(entry.1@)
            &&& r@[j]@ == compressed(state_keys@[entry.0@], event_ids@[entry.1@])
        } by {
            let l = lowered@[j];
            assert(l.event_id@ == resolved.entries@[j].1@);
        }
    }
    Some(r)
}

} // verus!
