//! A small association list with verified map semantics.
//!
//! The tables of the core (JSON objects, the sender's status table, the
//! bad-event ratelimiter, short-id dictionaries) are keyed by strings or by
//! small structures of strings. They are kept as a vector of pairs whose keys
//! are pairwise distinct, viewed as a mathematical map.

use vstd::prelude::*;

verus! {

/// Keys that can be compared and copied in executable code, in agreement
/// with equality of their views.
pub trait Key: View + Sized {
    fn key_eq(&self, other: &Self) -> (r: bool)
        ensures
            r == (self@ == other@),
    ;

    fn key_clone(&self) -> (r: Self)
        ensures
            r@ == self@,
    ;
}

impl Key for String {
    fn key_eq(&self, other: &Self) -> (r: bool) {
        *self == *other
    }

    fn key_clone(&self) -> (r: Self) {
        self.clone()
    }
}

impl Key for u64 {
    fn key_eq(&self, other: &Self) -> (r: bool) {
        *self == *other
    }

    fn key_clone(&self) -> (r: Self) {
        *self
    }
}

/// The views of a list of byte strings.
pub open spec fn byte_views(list: Seq<Vec<u8>>) -> Seq<Seq<u8>> {
    list.map_values(|b: Vec<u8>| b@)
}

/// Copies a byte string.
pub fn clone_bytes(b: &Vec<u8>) -> (r: Vec<u8>)
    ensures
        r@ == b@,
{
    let mut r: Vec<u8> = Vec::new();
    let mut i: usize = 0;
    while i < b.len()
        invariant
            i <= b.len(),
            r@ == b@.subrange(0, i as int),
        decreases b.len() - i,
    {
        r.push(b[i]);
        i = i + 1;
        assert(r@ =~= b@.subrange(0, i as int));
    }
    assert(b@.subrange(0, b.len() as int) =~= b@);
    r
}

/// Whether two byte strings hold the same bytes.
pub fn bytes_eq(a: &Vec<u8>, b: &Vec<u8>) -> (r: bool)
    ensures
        r == (a@ == b@),
{
    let r = *a == *b;
    proof {
        if r {
            assert(a@ =~= b@);
        }
    }
    r
}

impl Key for Vec<u8> {
    fn key_eq(&self, other: &Self) -> (r: bool) {
        bytes_eq(self, other)
    }

    fn key_clone(&self) -> (r: Self) {
        clone_bytes(self)
    }
}

/// Whether the keys of `s` are pairwise distinct.
pub open spec fn distinct_keys<K: View, V>(s: Seq<(K, V)>) -> bool {
    forall|i: int, j: int|
        0 <= i < s.len() && 0 <= j < s.len() && #[trigger] s[i].0@ == #[trigger] s[j].0@ ==> i == j
}

/// Whether some entry of `s` has key view `k`.
pub open spec fn has_key<K: View, V>(s: Seq<(K, V)>, k: K::V) -> bool {
    exists|i: int| 0 <= i < s.len() && #[trigger] s[i].0@ == k
}

/// An index of `s` whose key view is `k`, when there is one.
pub open spec fn key_index<K: View, V>(s: Seq<(K, V)>, k: K::V) -> int {
    choose|i: int| 0 <= i < s.len() && #[trigger] s[i].0@ == k
}

/// The map that a sequence of pairs with distinct keys stands for.
pub open spec fn pairs_to_map<K: View, V>(s: Seq<(K, V)>) -> Map<K::V, V> {
    Map::new(|k: K::V| has_key(s, k), |k: K::V| s[key_index(s, k)].1)
}

/// Two entries of a sequence with distinct keys that have the same key are
/// one entry.
pub proof fn lemma_same_key<K: View, V>(s: Seq<(K, V)>, i: int, j: int)
    requires
        distinct_keys(s),
        0 <= i < s.len(),
        0 <= j < s.len(),
        s[i].0@ == s[j].0@,
    ensures
        i == j,
{
}

/// Every entry of a sequence with distinct keys is found in its map.
pub proof fn lemma_entry_in_map<K: View, V>(s: Seq<(K, V)>, i: int)
    requires
        distinct_keys(s),
        0 <= i < s.len(),
    ensures
        pairs_to_map(s).contains_key(s[i].0@),
        pairs_to_map(s)[s[i].0@] == s[i].1,
        key_index(s, s[i].0@) == i,
{
    let k = s[i].0@;
    assert(has_key(s, k));
    let j = key_index(s, k);
    assert(0 <= j < s.len() && s[j].0@ == k);
}

/// Appending a pair with a fresh key inserts it into the map.
pub proof fn lemma_push_fresh<K: View, V>(s: Seq<(K, V)>, k: K, v: V)
    requires
        distinct_keys(s),
        !has_key(s, k@),
    ensures
        distinct_keys(s.push((k, v))),
        pairs_to_map(s.push((k, v))) == pairs_to_map(s).insert(k@, v),
{
    let t = s.push((k, v));
    assert forall|i: int, j: int|
        0 <= i < t.len() && 0 <= j < t.len() && #[trigger] t[i].0@ == #[trigger] t[j].0@ implies i
        == j by {
        if i < s.len() && j < s.len() {
            assert(s[i].0@ == s[j].0@);
        } else if i < s.len() {
            assert(s[i].0@ == k@);
        } else if j < s.len() {
            assert(s[j].0@ == k@);
        }
    }
    assert forall|kk: K::V| has_key(t, kk) <==> (kk == k@ || has_key(s, kk)) by {
        if has_key(t, kk) {
            let i = key_index(t, kk);
            if i < s.len() {
                assert(s[i].0@ == kk);
            }
        }
        if has_key(s, kk) {
            let i = key_index(s, kk);
            assert(t[i].0@ == kk);
        }
        if kk == k@ {
            assert(t[s.len() as int].0@ == kk);
        }
    }
    assert forall|kk: K::V| has_key(t, kk) implies #[trigger] pairs_to_map(t)[kk] == pairs_to_map(
        s,
    ).insert(k@, v)[kk] by {
        let i = key_index(t, kk);
        lemma_entry_in_map(t, i);
        if i < s.len() {
            assert(s[i].0@ == kk);
            lemma_entry_in_map(s, i);
        }
    }
    assert(pairs_to_map(t) =~= pairs_to_map(s).insert(k@, v));
}

/// Replacing the value of one entry replaces it in the map.
pub proof fn lemma_update_value<K: View, V>(s: Seq<(K, V)>, i: int, k: K, v: V)
    requires
        distinct_keys(s),
        0 <= i < s.len(),
        k@ == s[i].0@,
    ensures
        distinct_keys(s.update(i, (k, v))),
        pairs_to_map(s.update(i, (k, v))) == pairs_to_map(s).insert(k@, v),
{
    let t = s.update(i, (k, v));
    assert forall|a: int| 0 <= a < s.len() implies #[trigger] t[a].0@ == s[a].0@ by {}
    assert forall|a: int, b: int|
        0 <= a < t.len() && 0 <= b < t.len() && #[trigger] t[a].0@ == #[trigger] t[b].0@ implies a
        == b by {
        assert(s[a].0@ == s[b].0@);
    }
    assert forall|kk: K::V| has_key(t, kk) <==> has_key(s, kk) by {
        if has_key(t, kk) {
            let a = key_index(t, kk);
            assert(s[a].0@ == kk);
        }
        if has_key(s, kk) {
            let a = key_index(s, kk);
            assert(t[a].0@ == kk);
        }
    }
    lemma_entry_in_map(s, i);
    assert forall|kk: K::V| has_key(t, kk) implies #[trigger] pairs_to_map(t)[kk] == pairs_to_map(
        s,
    ).insert(k@, v)[kk] by {
        let a = key_index(t, kk);
        lemma_entry_in_map(t, a);
        assert(s[a].0@ == kk);
        lemma_entry_in_map(s, a);
    }
    assert(pairs_to_map(t) =~= pairs_to_map(s).insert(k@, v));
}

/// Removing one entry removes its key from the map.
pub proof fn lemma_remove_entry<K: View, V>(s: Seq<(K, V)>, i: int)
    requires
        distinct_keys(s),
        0 <= i < s.len(),
    ensures
        distinct_keys(s.remove(i)),
        pairs_to_map(s.remove(i)) == pairs_to_map(s).remove(s[i].0@),
{
    let t = s.remove(i);
    let k = s[i].0@;
    assert forall|a: int| 0 <= a < t.len() implies #[trigger] t[a] == s[if a < i {
        a
    } else {
        a + 1
    }] by {}
    assert forall|a: int, b: int|
        0 <= a < t.len() && 0 <= b < t.len() && #[trigger] t[a].0@ == #[trigger] t[b].0@ implies a
        == b by {
        let a2 = if a < i { a } else { a + 1 };
        let b2 = if b < i { b } else { b + 1 };
        assert(s[a2].0@ == s[b2].0@);
    }
    assert forall|kk: K::V| has_key(t, kk) <==> (kk != k && has_key(s, kk)) by {
        if has_key(t, kk) {
            let a = key_index(t, kk);
            let a2 = if a < i { a } else { a + 1 };
            assert(s[a2].0@ == kk);
            if kk == k {
                assert(s[a2].0@ == s[i].0@);
            }
        }
        if kk != k && has_key(s, kk) {
            let a = key_index(s, kk);
            let a2 = if a < i { a } else { a - 1 };
            assert(t[a2].0@ == kk);
        }
    }
    assert forall|kk: K::V| has_key(t, kk) implies #[trigger] pairs_to_map(t)[kk] == pairs_to_map(
        s,
    ).remove(k)[kk] by {
        let a = key_index(t, kk);
        lemma_entry_in_map(t, a);
        let a2 = if a < i { a } else { a + 1 };
        assert(s[a2].0@ == kk);
        lemma_entry_in_map(s, a2);
    }
    assert(pairs_to_map(t) =~= pairs_to_map(s).remove(k));
}

/// A finite map from keys to values, kept in insertion order.
#[derive(Debug)]
pub struct AssocMap<K, V> {
    pub entries: Vec<(K, V)>,
}

impl<K: Key, V> AssocMap<K, V> {
    /// No key occurs twice.
    pub open spec fn wf(&self) -> bool {
        distinct_keys(self.entries@)
    }

    /// The map from key views to values.
    pub open spec fn map(&self) -> Map<K::V, V> {
        pairs_to_map(self.entries@)
    }

    pub fn new() -> (m: Self)
        ensures
            m.wf(),
            m.map() == Map::<K::V, V>::empty(),
            m.entries@.len() == 0,
    {
        let m = AssocMap { entries: Vec::new() };
        assert(m.map() =~= Map::<K::V, V>::empty());
        m
    }

    /// The position of `key`, if it is present.
    pub fn index_of(&self, key: &K) -> (r: Option<usize>)
        requires
            self.wf(),
        ensures
            r is Some <==> self.map().contains_key(key@),
            r matches Some(i) ==> i < self.entries@.len() && self.entries@[i as int].0@ == key@
                && self.map()[key@] == self.entries@[i as int].1,
    {
        let mut i: usize = 0;
        while i < self.entries.len()
            invariant
                self.wf(),
                i <= self.entries.len(),
                forall|j: int| 0 <= j < i ==> (#[trigger] self.entries@[j]).0@ != key@,
            decreases self.entries.len() - i,
        {
            if self.entries[i].0.key_eq(key) {
                proof {
                    lemma_entry_in_map(self.entries@, i as int);
                }
                return Some(i);
            }
            i = i + 1;
        }
        proof {
            if has_key(self.entries@, key@) {
                let j = key_index(self.entries@, key@);
                assert(self.entries@[j].0@ == key@);
            }
        }
        None
    }

    pub fn contains_key(&self, key: &K) -> (r: bool)
        requires
            self.wf(),
        ensures
            r == self.map().contains_key(key@),
    {
        self.index_of(key).is_some()
    }

    pub fn get(&self, key: &K) -> (r: Option<&V>)
        requires
            self.wf(),
        ensures
            r is Some <==> self.map().contains_key(key@),
            r matches Some(v) ==> *v == self.map()[key@],
    {
        match self.index_of(key) {
            Some(i) => Some(&self.entries[i].1),
            None => None,
        }
    }

    /// Binds `key` to `value`, replacing an earlier binding in place.
    pub fn insert(&mut self, key: K, value: V)
        requires
            old(self).wf(),
        ensures
            final(self).wf(),
            final(self).map() == old(self).map().insert(key@, value),
    {
        match self.index_of(&key) {
            Some(i) => {
                proof {
                    lemma_update_value(self.entries@, i as int, key, value);
                }
                self.entries[i] = (key, value);
            },
            None => {
                proof {
                    lemma_push_fresh(self.entries@, key, value);
                }
                self.entries.push((key, value));
            },
        }
    }

    /// Removes the binding of `key` and returns its value, if there was one.
    pub fn remove(&mut self, key: &K) -> (r: Option<V>)
        requires
            old(self).wf(),
        ensures
            final(self).wf(),
            final(self).map() == old(self).map().remove(key@),
            r is Some <==> old(self).map().contains_key(key@),
            r matches Some(v) ==> v == old(self).map()[key@],
    {
        match self.index_of(key) {
            Some(i) => {
                proof {
                    lemma_remove_entry(self.entries@, i as int);
                }
                let (_, v) = self.entries.remove(i);
                Some(v)
            },
            None => {
                assert(self.map().remove(key@) =~= self.map());
                None
            },
        }
    }

    pub fn len(&self) -> (n: usize)
        ensures
            n == self.entries@.len(),
    {
        self.entries.len()
    }
}

} // verus!
