//! Short-id dictionaries.
//!
//! Every distinct `(type, state key)` pair and every event id gets a small
//! integer on first sight. The integers are handed out in rising order and
//! never taken back or given twice, so that a dictionary is a bijection
//! between what it has seen and the integers it has handed out.

use crate::assoc::{lemma_entry_in_map, AssocMap, Key};
use vstd::prelude::*;

verus! {

/// The key of a state entry: the type of the event and its state key.
#[derive(Debug)]
pub struct StateKey {
    pub event_type: String,
    pub state_key: String,
}

impl View for StateKey {
    type V = (Seq<char>, Seq<char>);

    open spec fn view(&self) -> (Seq<char>, Seq<char>) {
        (self.event_type@, self.state_key@)
    }
}

impl Key for StateKey {
    fn key_eq(&self, other: &Self) -> (r: bool) {
        self.event_type == other.event_type && self.state_key == other.state_key
    }

    fn key_clone(&self) -> (r: Self) {
        StateKey { event_type: self.event_type.clone(), state_key: self.state_key.clone() }
    }
}

/// A dictionary from keys to short ids.
#[derive(Debug)]
pub struct ShortIds<K> {
    pub ids: AssocMap<K, u64>,
    /// The short id that is handed out next.
    pub next: u64,
}

impl<K: Key> View for ShortIds<K> {
    type V = Map<K::V, u64>;

    open spec fn view(&self) -> Map<K::V, u64> {
        self.ids.map()
    }
}

/// Whether no two keys of `m` have the same short id.
pub open spec fn injective<A>(m: Map<A, u64>) -> bool {
    forall|a: A, b: A|
        #![trigger m[a], m[b]]
        m.contains_key(a) && m.contains_key(b) && m[a] == m[b] ==> a == b
}

impl<K: Key> ShortIds<K> {
    /// The short ids in use are distinct, at least 1, and below the next
    /// one to be handed out.
    pub open spec fn wf(&self) -> bool {
        &&& self.ids.wf()
        &&& self.next >= 1
        &&& forall|k: K::V| #[trigger] self@.contains_key(k) ==> 1 <= self@[k] < self.next
        &&& injective(self@)
    }

    /// The dictionary that has seen nothing.
    pub fn new() -> (d: Self)
        ensures
            d.wf(),
            d@ == Map::<K::V, u64>::empty(),
            d.next == 1,
    {
        ShortIds { ids: AssocMap::new(), next: 1 }
    }

    /// The short id of `key`, if it has one.
    pub fn get(&self, key: &K) -> (r: Option<u64>)
        requires
            self.wf(),
        ensures
            r is Some <==> self@.contains_key(key@),
            r matches Some(id) ==> id == self@[key@],
    {
        match self.ids.get(key) {
            Some(id) => Some(*id),
            None => None,
        }
    }

    /// The short id of `key`; a key seen for the first time gets the next
    /// one. What the dictionary held before, it holds afterwards: a key
    /// that has a short id keeps it, on this call and on every later one.
    ///
    /// `None` only where the key is new and the short ids are used up.
    pub fn get_or_create(&mut self, key: &K) -> (id: Option<u64>)
        requires
            old(self).wf(),
        ensures
            final(self).wf(),
            old(self)@.submap_of(final(self)@),
            id matches Some(v) ==> final(self)@.contains_key(key@) && final(self)@[key@] == v,
            old(self)@.contains_key(key@) ==> id == Some(old(self)@[key@]) && final(self)@ == old(
                self,
            )@ && final(self).next == old(self).next,
            !old(self)@.contains_key(key@) && old(self).next < u64::MAX ==> id == Some(
                old(self).next,
            ) && final(self)@ == old(self)@.insert(key@, old(self).next) && final(self).next
                == old(self).next + 1,
            !old(self)@.contains_key(key@) && old(self).next == u64::MAX ==> id is None
                && final(self)@ == old(self)@ && final(self).next == old(self).next,
    {
        match self.ids.get(key) {
            Some(id) => Some(*id),
            None => {
                if self.next == u64::MAX {
                    return None;
                }
                let id = self.next;
                let ghost before = self@;
                self.ids.insert(key.key_clone(), id);
                self.next = id + 1;
                proof {
                    assert forall|k: K::V| #[trigger] self@.contains_key(k) implies 1 <= self@[k]
                        < self.next by {
                        if k != key@ {
                            assert(before.contains_key(k));
                        }
                    }
                    assert forall|a: K::V, b: K::V|
                        #![trigger self@[a], self@[b]]
                        self@.contains_key(a) && self@.contains_key(b) && self@[a]
                            == self@[b] implies a == b by {
                        if a != key@ {
                            assert(before.contains_key(a));
                        }
                        if b != key@ {
                            assert(before.contains_key(b));
                        }
                        if a != key@ && b != key@ {
                            assert(before[a] == before[b]);
                        }
                    }
                }
                Some(id)
            },
        }
    }

    /// The key that has the short id `short`, if there is one.
    pub fn key_of(&self, short: u64) -> (r: Option<&K>)
        requires
            self.wf(),
        ensures
            r is Some <==> exists|k: K::V| self@.contains_key(k) && #[trigger] self@[k] == short,
            r matches Some(k) ==> self@.contains_key(k@) && self@[k@] == short,
    {
        let mut i: usize = 0;
        while i < self.ids.entries.len()
            invariant
                self.wf(),
                i <= self.ids.entries.len(),
                forall|j: int| 0 <= j < i ==> (#[trigger] self.ids.entries@[j]).1 != short,
            decreases self.ids.entries.len() - i,
        {
            if self.ids.entries[i].1 == short {
                proof {
                    lemma_entry_in_map(self.ids.entries@, i as int);
                }
                return Some(&self.ids.entries[i].0);
            }
            i = i + 1;
        }
        proof {
            if exists|k: K::V| self@.contains_key(k) && #[trigger] self@[k] == short {
                let k = choose|k: K::V| self@.contains_key(k) && #[trigger] self@[k] == short;
                let j = crate::assoc::key_index(self.ids.entries@, k);
                assert(self.ids.entries@[j].0@ == k);
                lemma_entry_in_map(self.ids.entries@, j);
            }
        }
        None
    }
}

/// Two keys of a dictionary have the same short id only if they are the
/// same key, and a key keeps its short id whatever is added later.
pub proof fn lemma_short_ids_unique_and_stable<A>(
    before: Map<A, u64>,
    after: Map<A, u64>,
    a: A,
    b: A,
)
    requires
        injective(after),
        before.submap_of(after),
        before.contains_key(a),
        after.contains_key(b),
    ensures
        after[a] == before[a],
        a != b ==> after[a] != after[b],
{
}

} // verus!
