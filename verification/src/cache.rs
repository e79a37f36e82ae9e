//! A layered cache of state values: a snapshot layer, and optionally a delta layer and a
//! delta-of-delta layer on top of it.
use vstd::prelude::*;

use crate::map::{distinct_keys, entries_to_map, lemma_entries_len, lemma_lookup_at};
use crate::primitive::RollupId;

verus! {

/// A cached state value.
#[derive(Clone, Debug)]
pub enum Cached {
    Deleted,
    Balance(u128),
    Nonce(u32),
    TransferBaseFee(u128),
    BasePrefix(String),
    IsAllowedFeeAsset(bool),
    BlockFee(u128),
    RollupId(RollupId),
}

impl View for Cached {
    type V = Cached;

    open spec fn view(&self) -> Cached {
        *self
    }
}

/// One layer of the cache: a `quick_cache` cache of values by key bytes. Every item weighs one,
/// so the capacity of a layer counts items.
#[verifier::external_body]
pub struct Layer {
    inner: quick_cache::unsync::Cache<Vec<u8>, Cached>,
}

/// The contents of an empty layer.
pub open spec fn no_items() -> Map<Seq<u8>, Cached> {
    Map::empty()
}

/// What a `quick_cache` layer holds: cached values by key bytes.
pub uninterp spec fn layer_contents(c: Layer) -> Map<Seq<u8>, Cached>;

/// The item capacity a `quick_cache` layer was created with.
pub uninterp spec fn layer_capacity(c: Layer) -> nat;

/// Calls `quick_cache::unsync::Cache::new`: an empty layer with the given item capacity.
#[verifier::external_body]
fn layer_new(capacity: usize) -> (r: Layer)
    ensures
        layer_contents(r) == no_items(),
        layer_capacity(r) == capacity,
{
    Layer { inner: quick_cache::unsync::Cache::new(capacity) }
}

/// The layer holds fewer items than its capacity.
pub open spec fn layer_has_room(c: Layer) -> bool {
    &&& layer_contents(c).dom().finite()
    &&& layer_contents(c).len() < layer_capacity(c)
}

/// Calls `quick_cache::unsync::Cache::insert`. No item changes its value but the one inserted,
/// and items may be evicted, the inserted one among them. With unit weights, a layer that
/// holds fewer items than its capacity evicts nothing, so it then holds exactly its earlier
/// items and the inserted one.
#[verifier::external_body]
fn layer_insert(c: &mut Layer, key: Vec<u8>, value: Cached)
    requires
        layer_capacity(*old(c)) > 0,
    ensures
        layer_capacity(*final(c)) == layer_capacity(*old(c)),
        layer_contents(*final(c)).submap_of(layer_contents(*old(c)).insert(key@, value)),
        layer_has_room(*old(c)) ==> layer_contents(*final(c)) == layer_contents(*old(c)).insert(
            key@,
            value,
        ),
{
    c.inner.insert(key, value)
}

/// Calls `quick_cache::unsync::Cache::get_mut` and clones the value found; the contents do not
/// change.
#[verifier::external_body]
fn layer_get(c: &mut Layer, key: &Vec<u8>) -> (r: Option<Cached>)
    ensures
        layer_capacity(*final(c)) == layer_capacity(*old(c)),
        layer_contents(*final(c)) == layer_contents(*old(c)),
        match r {
            Some(v) => layer_contents(*old(c)).contains_key(key@) && v == layer_contents(
                *old(c),
            )[key@],
            None => !layer_contents(*old(c)).contains_key(key@),
        },
{
    c.inner.get_mut(key).map(|v| (*v).clone())
}

/// Calls `quick_cache::unsync::Cache::drain`: every item, each key once; the layer is empty
/// afterwards.
#[verifier::external_body]
fn layer_drain(c: &mut Layer) -> (r: Vec<(Vec<u8>, Cached)>)
    ensures
        layer_capacity(*final(c)) == layer_capacity(*old(c)),
        layer_contents(*final(c)) == no_items(),
        distinct_keys(r@),
        entries_to_map(r@) == layer_contents(*old(c)),
{
    c.inner.drain().collect()
}

/// Calls `quick_cache::unsync::Cache::clear`: the layer is empty afterwards.
#[verifier::external_body]
fn layer_clear(c: &mut Layer)
    ensures
        layer_capacity(*final(c)) == layer_capacity(*old(c)),
        layer_contents(*final(c)) == no_items(),
{
    c.inner.clear()
}

/// The item capacity of each layer.
pub const LAYER_CAPACITY: usize = 1_000_000;

/// The contents of the layers of a cache.
pub struct CacheView {
    pub snapshot: Map<Seq<u8>, Cached>,
    pub delta: Option<Map<Seq<u8>, Cached>>,
    pub delta_delta: Option<Map<Seq<u8>, Cached>>,
}

/// The contents of an optional layer.
pub open spec fn opt_layer(o: Option<Layer>) -> Option<Map<Seq<u8>, Cached>> {
    match o {
        Some(l) => Some(layer_contents(l)),
        None => None,
    }
}

impl CacheView {
    /// The topmost layer: the delta-of-delta if present, else the delta if present, else the
    /// snapshot.
    pub open spec fn top(self) -> Map<Seq<u8>, Cached> {
        match self.delta_delta {
            Some(m) => m,
            None => match self.delta {
                Some(m) => m,
                None => self.snapshot,
            },
        }
    }

    /// The cache with its topmost layer replaced.
    pub open spec fn with_top(self, m: Map<Seq<u8>, Cached>) -> CacheView {
        match self.delta_delta {
            Some(_) => CacheView { delta_delta: Some(m), ..self },
            None => match self.delta {
                Some(_) => CacheView { delta: Some(m), ..self },
                None => CacheView { snapshot: m, ..self },
            },
        }
    }

    /// The layers are nested: a delta-of-delta only exists on top of a delta.
    pub open spec fn nested(self) -> bool {
        self.delta_delta is Some ==> self.delta is Some
    }
}

/// A layered cache of state values.
pub struct StateCache {
    snapshot: Layer,
    delta: Option<Layer>,
    delta_delta: Option<Layer>,
}

impl View for StateCache {
    type V = CacheView;

    closed spec fn view(&self) -> CacheView {
        CacheView {
            snapshot: layer_contents(self.snapshot),
            delta: opt_layer(self.delta),
            delta_delta: opt_layer(self.delta_delta),
        }
    }
}

/// What a lookup in a layer yields: the value unless it is absent or marks a deletion.
pub open spec fn lookup(m: Map<Seq<u8>, Cached>, key: Seq<u8>) -> Option<Cached> {
    if m.contains_key(key) && !(m[key] is Deleted) {
        Some(m[key])
    } else {
        None
    }
}

/// The result of inserting a batch of items, one after another, into a layer that may evict:
/// a submap of the layer overridden by the batch.
pub open spec fn merged_into(after: Map<Seq<u8>, Cached>, base: Map<Seq<u8>, Cached>, batch: Map<Seq<u8>, Cached>) -> bool {
    forall|k: Seq<u8>| #[trigger]
        after.contains_key(k) ==> (if batch.contains_key(k) {
            after[k] == batch[k]
        } else {
            base.contains_key(k) && after[k] == base[k]
        })
}

/// A layer that holds finitely many items stays so after an insert that keeps a submap of its
/// items and the inserted one.
proof fn lemma_insert_keeps_finite(before: Map<Seq<u8>, Cached>, after: Map<Seq<u8>, Cached>, key: Seq<u8>, value: Cached)
    requires
        before.dom().finite(),
        after.submap_of(before.insert(key, value)),
    ensures
        after.dom().finite(),
{
    assert forall|x: Seq<u8>| after.dom().contains(x) implies before.dom().insert(key).contains(x) by {
        assert(before.insert(key, value).dom().contains(x));
    }
    assert(after.dom().subset_of(before.dom().insert(key)));
    vstd::set_lib::lemma_set_subset_finite(before.dom().insert(key), after.dom());
}

/// Inserting the entry at `n - 1` into the snapshot overridden by the entries from `n` on
/// gives the snapshot overridden by the entries from `n - 1` on.
proof fn lemma_merge_step(all: Seq<(Vec<u8>, Cached)>, n: int, base: Map<Seq<u8>, Cached>)
    requires
        distinct_keys(all),
        1 <= n <= all.len(),
    ensures
        base.union_prefer_right(entries_to_map(all.subrange(n, all.len() as int))).insert(
            all[n - 1].0@,
            all[n - 1].1,
        ) == base.union_prefer_right(entries_to_map(all.subrange(n - 1, all.len() as int))),
{
    let done_old = all.subrange(n, all.len() as int);
    let done_new = all.subrange(n - 1, all.len() as int);
    let kk = all[n - 1].0@;
    let vv = all[n - 1].1;
    assert(distinct_keys(done_old)) by {
        assert forall|i: int, j: int|
            0 <= i < done_old.len() && 0 <= j < done_old.len() && i != j implies done_old[i].0@
                != done_old[j].0@ by {
            assert(done_old[i] == all[n + i]);
            assert(done_old[j] == all[n + j]);
        }
    }
    assert(distinct_keys(done_new)) by {
        assert forall|i: int, j: int|
            0 <= i < done_new.len() && 0 <= j < done_new.len() && i != j implies done_new[i].0@
                != done_new[j].0@ by {
            assert(done_new[i] == all[n - 1 + i]);
            assert(done_new[j] == all[n - 1 + j]);
        }
    }
    let m_old = entries_to_map(done_old);
    let m_new = entries_to_map(done_new);
    assert(m_new =~= m_old.insert(kk, vv)) by {
        assert(done_new[0] == all[n - 1]);
        lemma_lookup_at(done_new, 0);
        assert forall|q: Seq<u8>| #[trigger] m_new.dom().contains(q) implies m_old.insert(kk, vv).dom().contains(q)
            && m_new[q] == m_old.insert(kk, vv)[q] by {
            assert(exists|i: int| 0 <= i < done_new.len() && #[trigger] done_new[i].0@ == q);
            let c = choose|i: int| 0 <= i < done_new.len() && #[trigger] done_new[i].0@ == q;
            if c == 0 {
                assert(q == kk);
                assert(m_new[q] == vv);
            } else {
                assert(done_new[c] == done_old[c - 1]);
                lemma_lookup_at(done_new, c);
                lemma_lookup_at(done_old, c - 1);
                assert(done_new[0].0@ == kk);
                assert(q != kk);
                assert(m_old.contains_key(q));
                assert(m_new[q] == m_old[q]);
            }
        }
        assert forall|q: Seq<u8>| #[trigger] m_old.insert(kk, vv).dom().contains(q) implies m_new.dom().contains(q) by {
            if q != kk {
                assert(m_old.contains_key(q));
                assert(exists|i: int| 0 <= i < done_old.len() && #[trigger] done_old[i].0@ == q);
                let d = choose|i: int| 0 <= i < done_old.len() && #[trigger] done_old[i].0@ == q;
                assert(done_new[d + 1] == done_old[d]);
                lemma_lookup_at(done_new, d + 1);
            } else {
                assert(done_new[0].0@ == kk);
            }
        }
        assert(m_new.dom() =~= m_old.insert(kk, vv).dom());
    }
    assert(base.union_prefer_right(m_old).insert(kk, vv) =~= base.union_prefer_right(m_old.insert(kk, vv)));
}

/// A layer has a non-zero capacity and holds finitely many items.
pub open spec fn layer_ok(c: Layer) -> bool {
    layer_capacity(c) > 0 && layer_contents(c).dom().finite()
}

impl StateCache {
    /// The layers are nested, and each has the layer capacity and holds finitely many items.
    pub closed spec fn wf(&self) -> bool {
        &&& self@.nested()
        &&& layer_ok(self.snapshot)
        &&& layer_capacity(self.snapshot) == LAYER_CAPACITY
        &&& (self.delta matches Some(d) ==> layer_ok(d) && layer_capacity(d) == LAYER_CAPACITY)
        &&& (self.delta_delta matches Some(d) ==> layer_ok(d) && layer_capacity(d) == LAYER_CAPACITY)
    }

    /// The topmost layer holds fewer items than its capacity, so an insert into it evicts
    /// nothing.
    pub closed spec fn has_room(&self) -> bool {
        match self.delta_delta {
            Some(d) => layer_has_room(d),
            None => match self.delta {
                Some(d) => layer_has_room(d),
                None => layer_has_room(self.snapshot),
            },
        }
    }

    /// A cache with an empty snapshot layer and no delta layers.
    pub fn new() -> (r: Self)
        ensures
            r.wf(),
            r.has_room(),
            r@ == (CacheView { snapshot: Map::empty(), delta: None, delta_delta: None }),
    {
        StateCache { snapshot: layer_new(LAYER_CAPACITY), delta: None, delta_delta: None }
    }

    /// Opens a delta layer over the snapshot.
    pub fn new_delta(&mut self)
        requires
            old(self).wf(),
            old(self)@.delta is None,
            old(self)@.delta_delta is None,
        ensures
            final(self).wf(),
            final(self).has_room(),
            final(self)@ == (CacheView { delta: Some(Map::empty()), ..old(self)@ }),
    {
        self.delta = Some(layer_new(LAYER_CAPACITY));
    }

    /// Opens a delta-of-delta layer over the delta.
    pub fn new_delta_delta(&mut self)
        requires
            old(self).wf(),
            old(self)@.delta is Some,
            old(self)@.delta_delta is None,
        ensures
            final(self).wf(),
            final(self).has_room(),
            final(self)@ == (CacheView { delta_delta: Some(Map::empty()), ..old(self)@ }),
    {
        self.delta_delta = Some(layer_new(LAYER_CAPACITY));
    }

    fn top_insert(&mut self, key: Vec<u8>, value: Cached)
        requires
            old(self).wf(),
        ensures
            final(self).wf(),
            final(self)@ == old(self)@.with_top(final(self)@.top()),
            final(self)@.top().submap_of(old(self)@.top().insert(key@, value)),
            old(self).has_room() ==> final(self)@.top() == old(self)@.top().insert(key@, value),
    {
        let ghost k = key@;
        if let Some(cache) = self.delta_delta.as_mut() {
            let ghost before = layer_contents(*cache);
            layer_insert(cache, key, value);
            proof {
                lemma_insert_keeps_finite(before, layer_contents(*cache), k, value);
            }
            assert(self@ == old(self)@.with_top(layer_contents(self.delta_delta.unwrap())));
        } else if let Some(cache) = self.delta.as_mut() {
            let ghost before = layer_contents(*cache);
            layer_insert(cache, key, value);
            proof {
                lemma_insert_keeps_finite(before, layer_contents(*cache), k, value);
            }
            assert(self@ == old(self)@.with_top(layer_contents(self.delta.unwrap())));
        } else {
            let ghost before = layer_contents(self.snapshot);
            layer_insert(&mut self.snapshot, key, value);
            proof {
                lemma_insert_keeps_finite(before, layer_contents(self.snapshot), k, value);
            }
            assert(self@ == old(self)@.with_top(layer_contents(self.snapshot)));
        }
    }

    /// Caches a value in the topmost layer. No entry of that layer changes but the one put;
    /// entries may be evicted, the one put among them. A layer with room evicts nothing, so it
    /// then holds exactly its earlier entries and the one put.
    pub fn put(&mut self, key: Vec<u8>, value: Cached)
        requires
            old(self).wf(),
        ensures
            final(self).wf(),
            final(self)@ == old(self)@.with_top(final(self)@.top()),
            final(self)@.top().submap_of(old(self)@.top().insert(key@, value)),
            old(self).has_room() ==> final(self)@.top() == old(self)@.top().insert(key@, value),
    {
        self.top_insert(key, value);
    }

    /// Marks a key deleted in the topmost layer, without removing it; as with `put`, a layer with
    /// room evicts nothing.
    pub fn delete(&mut self, key: Vec<u8>)
        requires
            old(self).wf(),
        ensures
            final(self).wf(),
            final(self)@ == old(self)@.with_top(final(self)@.top()),
            final(self)@.top().submap_of(old(self)@.top().insert(key@, Cached::Deleted)),
            old(self).has_room() ==> final(self)@.top() == old(self)@.top().insert(
                key@,
                Cached::Deleted,
            ),
    {
        self.top_insert(key, Cached::Deleted);
    }

    /// Looks a key up in the topmost layer only; a deletion mark reads as absent.
    pub fn get(&mut self, key: &Vec<u8>) -> (r: Option<Cached>)
        requires
            old(self).wf(),
        ensures
            final(self).wf(),
            final(self)@ == old(self)@,
            final(self).has_room() == old(self).has_room(),
            r == lookup(old(self)@.top(), key@),
    {
        let found = if let Some(cache) = self.delta_delta.as_mut() {
            layer_get(cache, key)
        } else if let Some(cache) = self.delta.as_mut() {
            layer_get(cache, key)
        } else {
            layer_get(&mut self.snapshot, key)
        };
        match found {
            Some(Cached::Deleted) => None,
            other => other,
        }
    }

    fn insert_all(target: &mut Layer, items: Vec<(Vec<u8>, Cached)>)
        requires
            layer_ok(*old(target)),
            distinct_keys(items@),
        ensures
            layer_ok(*final(target)),
            layer_capacity(*final(target)) == layer_capacity(*old(target)),
            merged_into(layer_contents(*final(target)), layer_contents(*old(target)), entries_to_map(items@)),
            layer_contents(*old(target)).len() + items@.len() < layer_capacity(*old(target)) ==> layer_contents(*final(target)) == layer_contents(*old(target)).union_prefer_right(entries_to_map(items@)),
    {
        let ghost base = layer_contents(*target);
        let ghost all = items@;
        let ghost roomy = base.len() + all.len() < layer_capacity(*target);
        proof {
            assert(base.union_prefer_right(entries_to_map(all.subrange(all.len() as int, all.len() as int)))
                =~= base);
        }
        let mut items = items;
        // Insert in reverse order of the vector, popping each item.
        while items.len() > 0
            invariant
                layer_capacity(*target) == layer_capacity(*old(target)),
                layer_ok(*target),
                distinct_keys(all),
                items@.len() <= all.len(),
                items@ == all.subrange(0, items@.len() as int),
                merged_into(layer_contents(*target), base, entries_to_map(all.subrange(items@.len() as int, all.len() as int))),
                base.dom().finite(),
                roomy == (base.len() + all.len() < layer_capacity(*old(target))),
                roomy ==> layer_contents(*target) == base.union_prefer_right(
                    entries_to_map(all.subrange(items@.len() as int, all.len() as int)),
                ),
                roomy ==> layer_contents(*target).len() <= base.len() + all.len() - items@.len(),
            decreases items@.len(),
        {
            let ghost before = layer_contents(*target);
            let ghost n = items@.len();
            let popped = items.pop();
            assert(popped == Some(all[n - 1]));
            let (k, v) = popped.unwrap();
            let ghost kk = k@;
            assert(kk == all[n - 1].0@);
            let ghost vv = v;
            proof {
                if roomy {
                    assert(layer_has_room(*target));
                }
            }
            layer_insert(target, k, v);
            proof {
                lemma_insert_keeps_finite(before, layer_contents(*target), kk, vv);
                if roomy {
                    assert(all[n - 1].1 == vv);
                    lemma_merge_step(all, n as int, base);
                    assert(layer_contents(*target) == before.insert(kk, vv));
                    assert(before.insert(kk, vv).dom() =~= before.dom().insert(kk));
                }
                let done_old = all.subrange(n as int, all.len() as int);
                let done_new = all.subrange(n - 1, all.len() as int);
                let after = layer_contents(*target);
                assert forall|q: Seq<u8>| #[trigger] after.contains_key(q) implies (if entries_to_map(done_new).contains_key(q) {
                    after[q] == entries_to_map(done_new)[q]
                } else {
                    base.contains_key(q) && after[q] == base[q]
                }) by {
                    // the new item sits at index 0 of done_new
                    assert(done_new[0] == all[n - 1]);
                    assert(done_new[0].0@ == kk);
                    if q == kk {
                        assert(after.submap_of(before.insert(kk, vv)));
                        assert(after.dom().contains(q));
                        assert(before.insert(kk, vv).dom().contains(q));
                        assert(after[q] == before.insert(kk, vv)[q]);
                        assert(after[q] == vv);
                        assert(entries_to_map(done_new).contains_key(q)) by {
                            assert(done_new[0].0@ == q);
                        }
                        let c = choose|i: int| 0 <= i < done_new.len() && #[trigger] done_new[i].0@ == q;
                        assert(c == 0) by {
                            if c != 0 {
                                assert(done_new[c] == all[n - 1 + c]);
                            }
                        }
                    } else {
                        assert(after.submap_of(before.insert(kk, vv)));
                        assert(before.insert(kk, vv).contains_key(q));
                        assert(before.contains_key(q));
                        assert(after[q] == before[q]);
                        if entries_to_map(done_new).contains_key(q) {
                            let c = choose|i: int| 0 <= i < done_new.len() && #[trigger] done_new[i].0@ == q;
                            assert(c != 0);
                            assert(done_new[c] == done_old[c - 1]);
                            assert(entries_to_map(done_old).contains_key(q)) by {
                                assert(done_old[c - 1].0@ == q);
                            }
                            let d = choose|i: int| 0 <= i < done_old.len() && #[trigger] done_old[i].0@ == q;
                            assert(done_old[d] == all[n + d]);
                            assert(done_new[c] == all[n - 1 + c]);
                            assert(n + d == n - 1 + c);
                        } else {
                            if entries_to_map(done_old).contains_key(q) {
                                let d = choose|i: int| 0 <= i < done_old.len() && #[trigger] done_old[i].0@ == q;
                                assert(done_new[d + 1] == done_old[d]);
                                assert(entries_to_map(done_new).contains_key(q)) by {
                                    assert(done_new[d + 1].0@ == q);
                                }
                            }
                        }
                    }
                }
            }
        }
        proof {
            assert(all.subrange(0, all.len() as int) =~= all);
        }
    }

    /// Moves the delta layer's entries into the snapshot and closes the delta. Each snapshot
    /// entry afterwards holds the delta's value for its key, or else its earlier value; entries
    /// may have been evicted.
    pub fn apply_delta(&mut self)
        requires
            old(self).wf(),
            old(self)@.delta is Some,
            old(self)@.delta_delta is None,
        ensures
            final(self).wf(),
            final(self)@.delta is None,
            final(self)@.delta_delta is None,
            merged_into(final(self)@.snapshot, old(self)@.snapshot, old(self)@.delta.unwrap()),
            old(self)@.snapshot.len() + old(self)@.delta.unwrap().len() < LAYER_CAPACITY ==> final(self)@.snapshot == old(self)@.snapshot.union_prefer_right(old(self)@.delta.unwrap()),
    {
        let mut delta = self.delta.take().unwrap();
        let items = layer_drain(&mut delta);
        proof {
            lemma_entries_len(items@);
        }
        Self::insert_all(&mut self.snapshot, items);
    }

    /// Moves the delta-of-delta layer's entries into the delta and closes the delta-of-delta.
    pub fn apply_delta_delta(&mut self)
        requires
            old(self).wf(),
            old(self)@.delta is Some,
            old(self)@.delta_delta is Some,
        ensures
            final(self).wf(),
            final(self)@.snapshot == old(self)@.snapshot,
            final(self)@.delta is Some,
            final(self)@.delta_delta is None,
            merged_into(final(self)@.delta.unwrap(), old(self)@.delta.unwrap(), old(self)@.delta_delta.unwrap()),
            old(self)@.delta.unwrap().len() + old(self)@.delta_delta.unwrap().len() < LAYER_CAPACITY
                ==> final(self)@.delta.unwrap() == old(self)@.delta.unwrap().union_prefer_right(
                old(self)@.delta_delta.unwrap(),
            ),
    {
        let mut dd = self.delta_delta.take().unwrap();
        let items = layer_drain(&mut dd);
        proof {
            lemma_entries_len(items@);
        }
        let mut delta = self.delta.take().unwrap();
        Self::insert_all(&mut delta, items);
        self.delta = Some(delta);
    }

    /// Drops the topmost delta layer, if any, with its entries. Returns whether a layer was
    /// dropped.
    pub fn discard_changes(&mut self) -> (r: bool)
        requires
            old(self).wf(),
        ensures
            final(self).wf(),
            old(self)@.delta_delta is Some ==> r && final(self)@ == (CacheView { delta_delta: None, ..old(self)@ }),
            old(self)@.delta_delta is None && old(self)@.delta is Some ==> r && final(self)@ == (CacheView { delta: None, ..old(self)@ }),
            old(self)@.delta_delta is None && old(self)@.delta is None ==> !r && final(self)@ == old(self)@,
    {
        if let Some(mut cache) = self.delta_delta.take() {
            layer_clear(&mut cache);
            return true;
        }
        if let Some(mut cache) = self.delta.take() {
            layer_clear(&mut cache);
            return true;
        }
        false
    }
}

} // verus!
