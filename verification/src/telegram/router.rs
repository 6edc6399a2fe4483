//! Matching of responses to the callers that wait for them.

use std::collections::BTreeMap;
use vstd::prelude::*;
use vstd::std_specs::cmp::OrdSpec;
use vstd::std_specs::iter::IteratorSpec;

verus! {

/// Maps the correlation ids of outstanding requests to their completion slots.
///
/// A slot is whatever the caller wants handed back when the response arrives;
/// the router never looks inside it.
pub struct CorrelationRouter<S> {
    next_id: u64,
    pending: BTreeMap<u64, S>,
}

impl<S> CorrelationRouter<S> {
    /// The id that the next successful `allocate` returns.
    pub closed spec fn next_id(&self) -> u64 {
        self.next_id
    }

    /// The outstanding requests: correlation id to completion slot.
    pub closed spec fn pending(&self) -> Map<u64, S> {
        self.pending@
    }

    /// Every outstanding id was handed out before: it lies below the next one.
    pub open spec fn wf(&self) -> bool {
        forall|id: u64| self.pending().contains_key(id) ==> id < self.next_id()
    }

    /// A router with nothing outstanding, whose first id is 1.
    pub fn new() -> (r: Self)
        ensures
            r.next_id() == 1,
            r.pending() == Map::<u64, S>::empty(),
            r.wf(),
    {
        CorrelationRouter { next_id: 1, pending: BTreeMap::new() }
    }

    /// Hands out the next correlation id, or `None` once all 64-bit ids are used up.
    pub fn allocate(&mut self) -> (r: Option<u64>)
        ensures
            final(self).pending() == old(self).pending(),
            match r {
                Some(id) => id == old(self).next_id() && final(self).next_id() == id + 1,
                None => old(self).next_id() == u64::MAX && final(self).next_id() == u64::MAX,
            },
    {
        if self.next_id == u64::MAX {
            None
        } else {
            let id = self.next_id;
            self.next_id = id + 1;
            Some(id)
        }
    }

    /// Records `slot` as waiting for the response to `id`. A slot that was
    /// already waiting under that id is displaced and returned.
    pub fn register(&mut self, id: u64, slot: S) -> (displaced: Option<S>)
        ensures
            final(self).next_id() == old(self).next_id(),
            final(self).pending() == old(self).pending().insert(id, slot),
            displaced == delivery(old(self).pending(), id),
    {
        self.pending.insert(id, slot)
    }

    /// Allocates an id and registers `slot` under it, in one step. `None`, with
    /// the slot handed back, once all ids are used up.
    pub fn issue(&mut self, slot: S) -> (r: Result<u64, S>)
        requires
            old(self).wf(),
        ensures
            final(self).wf(),
            match r {
                Ok(id) => {
                    &&& id == old(self).next_id()
                    &&& !old(self).pending().contains_key(id)
                    &&& final(self).next_id() == id + 1
                    &&& final(self).pending() == old(self).pending().insert(id, slot)
                },
                Err(back) => {
                    &&& back == slot
                    &&& old(self).next_id() == u64::MAX
                    &&& final(self).next_id() == old(self).next_id()
                    &&& final(self).pending() == old(self).pending()
                },
            },
    {
        match self.allocate() {
            Some(id) => {
                self.pending.insert(id, slot);
                Ok(id)
            },
            None => Err(slot),
        }
    }

    /// Removes the slot waiting for `id` and returns it; `None` when no request
    /// with that id is outstanding.
    pub fn resolve(&mut self, id: u64) -> (slot: Option<S>)
        ensures
            final(self).next_id() == old(self).next_id(),
            final(self).pending() == old(self).pending().remove(id),
            slot == delivery(old(self).pending(), id),
    {
        self.pending.remove(&id)
    }

    /// Whether a request with this id is outstanding.
    pub fn is_pending(&self, id: u64) -> (r: bool)
        ensures
            r == self.pending().contains_key(id),
    {
        self.pending.contains_key(&id)
    }

    /// The number of outstanding requests.
    pub fn outstanding(&self) -> (n: usize)
        ensures
            n == self.pending().len(),
    {
        self.pending.len()
    }

    /// Takes every outstanding request out of the router, in the order of
    /// their ids. Each comes out once, with the slot registered for it, and
    /// nothing is outstanding afterwards.
    pub fn shutdown(&mut self) -> (abandoned: Vec<(u64, S)>)
        ensures
            final(self).next_id() == old(self).next_id(),
            final(self).pending() == Map::<u64, S>::empty(),
            drained(old(self).pending(), abandoned@),
    {
        let ghost before = self.pending@;
        let mut ids: Vec<u64> = Vec::new();
        for id in it: self.pending.keys()
            invariant
                ids@ == it.seq().unref().take(it.index()),
        {
            ids.push(*id);
            assert(ids@ =~= it.seq().unref().take(it.index() + 1));
        }
        assert(ids@ =~= self.pending.keys().remaining().unref());
        assert(ids@.to_set() == before.dom());
        assert(ids@.no_duplicates());
        proof {
            lemma_keys_increase(self.pending.keys().remaining());
        }
        assert(forall|a: int, b: int| 0 <= a < b < ids@.len() ==> ids@[a] < ids@[b]);
        let mut abandoned: Vec<(u64, S)> = Vec::new();
        let mut i: usize = 0;
        while i < ids.len()
            invariant
                i <= ids@.len(),
                ids@.to_set() == before.dom(),
                ids@.no_duplicates(),
                forall|a: int, b: int| 0 <= a < b < ids@.len() ==> ids@[a] < ids@[b],
                self.next_id == old(self).next_id,
                abandoned@.len() == i,
                forall|j: int| 0 <= j < i ==> (#[trigger] abandoned@[j]).0 == ids@[j],
                forall|j: int| 0 <= j < i ==> (#[trigger] abandoned@[j]).1 == before[ids@[j]],
                forall|id: u64|
                    self.pending@.contains_key(id) <==> exists|j: int|
                        i <= j < ids@.len() && #[trigger] ids@[j] == id,
                forall|id: u64| self.pending@.contains_key(id) ==> self.pending@[id] == before[id],
            decreases ids@.len() - i,
        {
            let id = ids[i];
            let ghost during = self.pending@;
            assert(during.contains_key(id));
            match self.pending.remove(&id) {
                Some(slot) => {
                    abandoned.push((id, slot));
                },
                None => {},
            }
            assert forall|other: u64| self.pending@.contains_key(other) <==> exists|j: int|
                i + 1 <= j < ids@.len() && #[trigger] ids@[j] == other by {
                if self.pending@.contains_key(other) {
                    assert(during.contains_key(other));
                    let j = choose|j: int| i <= j < ids@.len() && #[trigger] ids@[j] == other;
                    assert(j != i);
                }
                if exists|j: int| i + 1 <= j < ids@.len() && #[trigger] ids@[j] == other {
                    let j = choose|j: int| i + 1 <= j < ids@.len() && #[trigger] ids@[j] == other;
                    assert(ids@[j] != ids@[i as int]);
                    assert(during.contains_key(other));
                }
            }
            i = i + 1;
        }
        proof {
            assert(self.pending@ =~= Map::<u64, S>::empty());
            assert forall|id: u64| before.contains_key(id) implies exists|j: int|
                0 <= j < abandoned@.len() && #[trigger] abandoned@[j].0 == id by {
                assert(ids@.to_set().contains(id));
                let j = choose|j: int| 0 <= j < ids@.len() && ids@[j] == id;
                assert(abandoned@[j].0 == id);
            }
            assert forall|j: int| 0 <= j < abandoned@.len() implies before.contains_key(
                #[trigger] abandoned@[j].0,
            ) && before[abandoned@[j].0] == abandoned@[j].1 by {
                assert(ids@.to_set().contains(ids@[j]));
            }
        }
        abandoned
    }
}

/// Keys that come in increasing order grow strictly.
proof fn lemma_keys_increase(keys: Seq<&u64>)
    requires
        vstd::std_specs::btree::increasing_seq(keys),
    ensures
        forall|a: int, b: int| 0 <= a < b < keys.len() ==> *keys[a] < *keys[b],
{
    broadcast use vstd::laws_cmp::lemma_ref_obeys_cmp_spec;
    assert(vstd::laws_cmp::obeys_cmp::<u64>());
    assert(vstd::laws_cmp::obeys_cmp::<&u64>());
    vstd::std_specs::btree::axiom_increasing_seq_meaning::<&u64>(keys);
    assert forall|a: int, b: int| 0 <= a < b < keys.len() implies *keys[a] < *keys[b] by {
        assert(OrdSpec::cmp_spec(&keys[a], &keys[b]) is Less);
    }
}

/// What resolving `id` delivers: the slot registered under it, if any.
pub open spec fn delivery<S>(pending: Map<u64, S>, id: u64) -> Option<S> {
    if pending.contains_key(id) {
        Some(pending[id])
    } else {
        None
    }
}

/// What is outstanding after the ids of `ids` were resolved one after another.
pub open spec fn after_resolving<S>(pending: Map<u64, S>, ids: Seq<u64>) -> Map<u64, S>
    decreases ids.len(),
{
    if ids.len() == 0 {
        pending
    } else {
        after_resolving(pending, ids.drop_last()).remove(ids.last())
    }
}

/// What the `k`-th resolution of `ids` delivers, counted from 0.
pub open spec fn delivered<S>(pending: Map<u64, S>, ids: Seq<u64>, k: int) -> Option<S> {
    delivery(after_resolving(pending, ids.take(k)), ids[k])
}

/// After `ids` were resolved, exactly the requests with other ids are
/// outstanding, each with its own slot.
pub proof fn lemma_after_resolving<S>(pending: Map<u64, S>, ids: Seq<u64>)
    ensures
        forall|id: u64| #[trigger]
            after_resolving(pending, ids).contains_key(id) <==> pending.contains_key(id)
                && !ids.contains(id),
        forall|id: u64| #[trigger]
            after_resolving(pending, ids).contains_key(id) ==> after_resolving(pending, ids)[id]
                == pending[id],
    decreases ids.len(),
{
    if ids.len() > 0 {
        let front = ids.drop_last();
        lemma_after_resolving(pending, front);
        assert forall|id: u64| ids.contains(id) <==> front.contains(id) || id == ids.last() by {
            if ids.contains(id) {
                let i = choose|i: int| 0 <= i < ids.len() && ids[i] == id;
                if i < ids.len() - 1 {
                    assert(front[i] == id);
                }
            }
            if front.contains(id) {
                let i = choose|i: int| 0 <= i < front.len() && front[i] == id;
                assert(ids[i] == id);
            }
            if id == ids.last() {
                assert(ids[ids.len() - 1] == id);
            }
        }
        let before = after_resolving(pending, front);
        let after = after_resolving(pending, ids);
        assert(after == before.remove(ids.last()));
        assert forall|id: u64| #[trigger]
            after.contains_key(id) <==> pending.contains_key(id) && !ids.contains(id) by {
            assert(after.contains_key(id) <==> before.contains_key(id) && id != ids.last());
            assert(ids.contains(id) <==> front.contains(id) || id == ids.last());
        }
        assert forall|id: u64| #[trigger] after.contains_key(id) implies after[id]
            == pending[id] by {
            assert(before.contains_key(id));
        }
    } else {
        assert forall|id: u64| !ids.contains(id) by {}
    }
}

/// A correlation id is resolved at most once: whatever else is resolved in
/// between, and in whatever order, a second resolution of an id delivers
/// nothing.
pub proof fn lemma_resolved_at_most_once<S>(pending: Map<u64, S>, ids: Seq<u64>, i: int, j: int)
    requires
        0 <= i < j < ids.len(),
        ids[i] == ids[j],
    ensures
        delivered(pending, ids, j) is None,
{
    lemma_after_resolving(pending, ids.take(j));
    assert(ids.take(j)[i] == ids[j]);
}

/// Responses may come back in any order: each one that answers an outstanding
/// request for the first time delivers the slot that was registered under its
/// id.
pub proof fn lemma_routed_to_its_caller<S>(pending: Map<u64, S>, ids: Seq<u64>, k: int)
    requires
        0 <= k < ids.len(),
        pending.contains_key(ids[k]),
        forall|i: int| 0 <= i < k ==> ids[i] != ids[k],
    ensures
        delivered(pending, ids, k) == Some(pending[ids[k]]),
{
    lemma_after_resolving(pending, ids.take(k));
    if ids.take(k).contains(ids[k]) {
        let i = choose|i: int| 0 <= i < ids.take(k).len() && ids.take(k)[i] == ids[k];
        assert(ids[i] == ids[k]);
    }
}

/// An id that `allocate` hands out is not that of any outstanding request.
pub proof fn lemma_allocated_id_is_fresh<S>(router: CorrelationRouter<S>)
    requires
        router.wf(),
    ensures
        !router.pending().contains_key(router.next_id()),
{
}

/// Whether `out` lists every entry of `pending` once, in the order of the ids:
/// each item of `out` is an entry of `pending`, the ids grow from item to
/// item, and every id of `pending` is there.
pub open spec fn drained<S>(pending: Map<u64, S>, out: Seq<(u64, S)>) -> bool {
    &&& forall|i: int|
        0 <= i < out.len() ==> pending.contains_key(#[trigger] out[i].0) && pending[out[i].0]
            == out[i].1
    &&& forall|i: int, j: int| 0 <= i < j < out.len() ==> out[i].0 < out[j].0
    &&& forall|id: u64|
        pending.contains_key(id) ==> exists|i: int| 0 <= i < out.len() && #[trigger] out[i].0 == id
}

} // verus!
