//! State snapshots as deltas: a snapshot is stored as what it adds to its
//! parent and what it takes away from it.

use crate::assoc::{byte_views, bytes_eq, clone_bytes};
use vstd::prelude::*;

verus! {

/// The elements of `list` that are not in `other`, in order.
pub open spec fn without(list: Seq<Seq<u8>>, other: Seq<Seq<u8>>) -> Seq<Seq<u8>> {
    list.filter(|e: Seq<u8>| !other.contains(e))
}

/// Whether `needle` is among `list`.
pub fn contains_bytes(list: &Vec<Vec<u8>>, needle: &Vec<u8>) -> (r: bool)
    ensures
        r == byte_views(list@).contains(needle@),
{
    let mut i: usize = 0;
    while i < list.len()
        invariant
            i <= list.len(),
            forall|j: int| 0 <= j < i ==> byte_views(list@)[j] != needle@,
        decreases list.len() - i,
    {
        assert(byte_views(list@)[i as int] == list@[i as int]@);
        if bytes_eq(&list[i], needle) {
            return true;
        }
        i = i + 1;
    }
    false
}

fn difference(list: &Vec<Vec<u8>>, other: &Vec<Vec<u8>>) -> (r: Vec<Vec<u8>>)
    ensures
        byte_views(r@) == without(byte_views(list@), byte_views(other@)),
{
    let mut r: Vec<Vec<u8>> = Vec::new();
    let ghost all = byte_views(list@);
    let ghost keep = |e: Seq<u8>| !byte_views(other@).contains(e);
    let mut i: usize = 0;
    assert(all.subrange(0, 0).filter(keep) =~= Seq::<Seq<u8>>::empty()) by {
        assert(all.subrange(0, 0) =~= Seq::<Seq<u8>>::empty());
        reveal(Seq::filter);
    }
    assert(byte_views(r@) =~= Seq::<Seq<u8>>::empty());
    while i < list.len()
        invariant
            i <= list.len(),
            all == byte_views(list@),
            keep == (|e: Seq<u8>| !byte_views(other@).contains(e)),
            byte_views(r@) == all.subrange(0, i as int).filter(keep),
        decreases list.len() - i,
    {
        proof {
            let before = all.subrange(0, i as int);
            let next = all.subrange(0, i + 1);
            assert(next =~= before.push(all[i as int]));
            assert(next.drop_last() =~= before);
            reveal(Seq::filter);
            assert(all[i as int] == list@[i as int]@);
        }
        if !contains_bytes(other, &list[i]) {
            let ghost old_r = byte_views(r@);
            r.push(clone_bytes(&list[i]));
            assert(byte_views(r@) =~= old_r.push(list@[i as int]@));
        }
        i = i + 1;
    }
    assert(all.subrange(0, list.len() as int) =~= all);
    r
}

/// What a snapshot adds to its parent and what it takes away.
#[derive(Debug)]
pub struct StateDelta {
    /// The compressed state events of the snapshot that the parent lacks.
    pub added: Vec<Vec<u8>>,
    /// The compressed state events of the parent that the snapshot lacks.
    pub removed: Vec<Vec<u8>>,
}

/// The delta that leads from the snapshot `parent` to the snapshot
/// `state`.
pub fn state_delta(parent: &Vec<Vec<u8>>, state: &Vec<Vec<u8>>) -> (delta: StateDelta)
    ensures
        byte_views(delta.added@) == without(byte_views(state@), byte_views(parent@)),
        byte_views(delta.removed@) == without(byte_views(parent@), byte_views(state@)),
{
    StateDelta { added: difference(state, parent), removed: difference(parent, state) }
}

/// The snapshot that a delta makes of its parent: the parent without what
/// is removed, then what is added.
pub fn apply_delta(parent: &Vec<Vec<u8>>, delta: &StateDelta) -> (state: Vec<Vec<u8>>)
    ensures
        byte_views(state@) == without(byte_views(parent@), byte_views(delta.removed@)) + byte_views(
            delta.added@,
        ),
{
    let mut state = difference(parent, &delta.removed);
    let ghost kept = byte_views(state@);
    let mut i: usize = 0;
    while i < delta.added.len()
        invariant
            i <= delta.added.len(),
            byte_views(state@) == kept + byte_views(delta.added@).subrange(0, i as int),
        decreases delta.added.len() - i,
    {
        let ghost before = byte_views(state@);
        state.push(clone_bytes(&delta.added[i]));
        i = i + 1;
        assert(byte_views(state@) =~= before.push(delta.added@[i - 1]@));
        assert(byte_views(state@) =~= kept + byte_views(delta.added@).subrange(0, i as int));
    }
    assert(byte_views(delta.added@).subrange(0, delta.added.len() as int) =~= byte_views(
        delta.added@,
    ));
    state
}

/// An element is in `without(list, other)` exactly if it is in `list` and
/// not in `other`.
pub proof fn lemma_without_contains(list: Seq<Seq<u8>>, other: Seq<Seq<u8>>, e: Seq<u8>)
    ensures
        without(list, other).contains(e) <==> list.contains(e) && !other.contains(e),
{
    let keep = |x: Seq<u8>| !other.contains(x);
    if list.contains(e) && keep(e) {
        let i = choose|i: int| 0 <= i < list.len() && list[i] == e;
        list.lemma_filter_contains(keep, i);
    }
    if without(list, other).contains(e) {
        list.lemma_filter_contains_rev(keep, e);
        let i = choose|i: int| 0 <= i < list.filter(keep).len() && list.filter(keep)[i] == e;
        list.lemma_filter_pred(keep, i);
    }
}

/// Applying to a parent the delta that leads to a snapshot gives a
/// snapshot with the same compressed state events.
pub proof fn lemma_delta_restores_state(parent: Seq<Seq<u8>>, state: Seq<Seq<u8>>, e: Seq<u8>)
    ensures
        (without(parent, without(parent, state)) + without(state, parent)).contains(e)
            <==> state.contains(e),
{
    let removed = without(parent, state);
    let added = without(state, parent);
    let kept = without(parent, removed);
    lemma_without_contains(parent, state, e);
    lemma_without_contains(state, parent, e);
    lemma_without_contains(parent, removed, e);
    let whole = kept + added;
    if whole.contains(e) {
        let i = choose|i: int| 0 <= i < whole.len() && whole[i] == e;
        if i < kept.len() {
            assert(kept[i] == e);
            assert(kept.contains(e));
        } else {
            assert(added[i - kept.len()] == e);
            assert(added.contains(e));
        }
    }
    if state.contains(e) {
        if parent.contains(e) {
            assert(kept.contains(e));
            let i = choose|i: int| 0 <= i < kept.len() && kept[i] == e;
            assert(whole[i] == e);
        } else {
            assert(added.contains(e));
            let i = choose|i: int| 0 <= i < added.len() && added[i] == e;
            assert(whole[kept.len() + i] == e);
        }
    }
}

} // verus!
