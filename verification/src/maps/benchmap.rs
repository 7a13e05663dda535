//! The operations that the benchmarks run against every map adapter.
//!
//! Each trait states its operation over `BenchMapView::entries`, the map that
//! an adapter holds. The statements hold when `BenchMapView::obeys_model()`
//! does: when the key type's equality, hashing or ordering agree with the
//! mathematical equality and order of its values (true of the integer types).

use vstd::prelude::*;

verus! {

/// The entries that a map adapter holds, as a mathematical map.
pub trait BenchMapView<K, V> {
    /// The entries held. An adapter that gives no model of its entries
    /// leaves this empty.
    open spec fn entries(&self) -> Map<K, V> {
        Map::empty()
    }

    /// Whether this adapter's operations act on `entries` as the traits
    /// below state. An adapter that gives no model of its entries (one whose
    /// map changes behind shared references) leaves this false, and the
    /// traits then state nothing of it.
    open spec fn obeys_model() -> bool {
        false
    }
}

/// The name under which an adapter's results are reported.
pub trait BenchMapName {
    const NAME: &'static str;
}

/// What a lookup of `key` in `m` yields: a clone of the value stored there.
pub open spec fn found<K, V>(m: Map<K, V>, key: K, r: Option<V>) -> bool
    where V: Clone
{
    match r {
        Some(v) => m.contains_key(key) && cloned(m[key], v),
        None => !m.contains_key(key),
    }
}

/// The value that stays under `key` after a get-or-insert of `default`.
pub open spec fn kept_or_default<K, V>(m: Map<K, V>, key: K, default: V) -> V {
    if m.contains_key(key) {
        m[key]
    } else {
        default
    }
}

/// Whether `r` is the value that `m` stores under `key`, if any.
pub open spec fn maps_to<K, V>(m: Map<K, V>, key: K, r: Option<V>) -> bool {
    match r {
        Some(v) => m.contains_key(key) && m[key] == v,
        None => !m.contains_key(key),
    }
}

/// What a remove of `key` from `m` hands back: the value stored there.
pub open spec fn removed<K, V>(m: Map<K, V>, key: K, r: Option<V>) -> bool {
    maps_to(m, key, r)
}

pub trait BenchMapNew<K, V>: Sized + BenchMapView<K, V> {
    /// An empty map.
    fn new() -> (r: Self)
        ensures
            Self::obeys_model() ==> r.entries() == Map::<K, V>::empty(),
    ;
}

pub trait BenchMapNewWithHasher<K, V, H>: Sized + BenchMapView<K, V> {
    /// An empty map that hashes with `hasher`.
    fn new_with_hasher(hasher: H) -> (r: Self)
        ensures
            Self::obeys_model() ==> r.entries() == Map::<K, V>::empty(),
    ;
}

pub trait BenchMapClone<K, V>: Sized + BenchMapView<K, V> {
    /// A map with the same entries.
    fn clone_map(&self) -> (r: Self)
        ensures
            Self::obeys_model() ==> r.entries() == self.entries(),
    ;
}

pub trait BenchMapGetCloned<K, V: Clone>: BenchMapView<K, V> {
    /// A clone of the value stored under `key`, if any.
    fn get_cloned(&self, key: &K) -> (r: Option<V>)
        ensures
            Self::obeys_model() ==> found(self.entries(), *key, r),
    ;
}

/// Get-or-insert through a shared reference, for maps with interior
/// mutability.
pub trait BenchMapGetOrInsert<K, V> {
    fn get_or_insert(&self, key: K, default: V) -> V;
}

/// Insert through a shared reference, for maps with interior mutability.
pub trait BenchMapInsert<K, V> {
    fn insert(&self, key: K, value: V);
}

/// Visits every entry.
pub trait BenchMapIter<K, V>: BenchMapView<K, V> {
    /// Calls `f` on each entry, in the order in which the map walks them.
    fn for_each<F: FnMut(&K, &V)>(&self, f: F)
        requires
            Self::obeys_model(),
            forall|k: &K, v: &V| call_requires(f, (k, v)),
    ;
}

/// Remove through a shared reference, for maps with interior mutability.
pub trait BenchMapRemove<K, V> {
    fn remove(&self, key: &K) -> Option<V>;
}

pub trait BenchMapMutInsert<K, V>: BenchMapView<K, V> {
    /// Stores `value` under `key`, replacing any value there.
    fn insert(&mut self, key: K, value: V)
        ensures
            Self::obeys_model() ==> final(self).entries() == old(self).entries().insert(key, value),
    ;
}

pub trait BenchMapMutGetOrInsert<K, V: Clone>: BenchMapView<K, V> {
    /// Stores `default` under `key` unless a value is there already, and
    /// returns a clone of the value that `key` then maps to.
    fn get_or_insert(&mut self, key: K, default: V) -> (r: V)
        ensures
            Self::obeys_model() ==> {
                let kept = kept_or_default(old(self).entries(), key, default);
                &&& final(self).entries() == old(self).entries().insert(key, kept)
                &&& cloned(kept, r)
            },
    ;
}

pub trait BenchMapMutRemove<K, V>: BenchMapView<K, V> {
    /// Removes `key` and hands back the value that was stored under it.
    fn remove(&mut self, key: &K) -> (r: Option<V>)
        ensures
            Self::obeys_model() ==> {
                &&& final(self).entries() == old(self).entries().remove(*key)
                &&& removed(old(self).entries(), *key, r)
            },
    ;
}

pub trait BenchMapMutClear<K, V>: BenchMapView<K, V> {
    /// Removes every entry.
    fn clear(&mut self)
        ensures
            Self::obeys_model() ==> final(self).entries() == Map::<K, V>::empty(),
    ;
}

/// Law: right after `value` is stored under `key`, a lookup of `key` finds a
/// clone of `value`, and a lookup of any other key finds a value exactly when
/// it did before, a clone of the same stored value.
pub proof fn lemma_lookup_after_insert<K, V: Clone>(
    before: Map<K, V>,
    key: K,
    value: V,
    other: K,
    r_key: Option<V>,
    r_other: Option<V>,
)
    requires
        found(before.insert(key, value), key, r_key),
        found(before.insert(key, value), other, r_other),
        other != key,
    ensures
        r_key is Some && cloned(value, r_key->0),
        r_other is Some <==> before.contains_key(other),
        r_other is Some ==> cloned(before[other], r_other->0),
{
}

/// Law: after `key` is removed, a lookup of it finds nothing, and the value
/// the removal handed back is the one that was stored.
pub proof fn lemma_lookup_after_remove<K, V: Clone>(
    before: Map<K, V>,
    key: K,
    removed_value: Option<V>,
    r: Option<V>,
)
    requires
        removed(before, key, removed_value),
        found(before.remove(key), key, r),
    ensures
        r is None,
        removed_value is Some <==> before.contains_key(key),
        removed_value is Some ==> removed_value->0 == before[key],
{
}

/// Law: after a clear, a lookup of any key finds nothing.
pub proof fn lemma_lookup_after_clear<K, V: Clone>(key: K, r: Option<V>)
    requires
        found(Map::<K, V>::empty(), key, r),
    ensures
        r is None,
{
}

/// Law: a second get-or-insert of a key keeps what the first one left there,
/// whatever default it is given.
pub proof fn lemma_get_or_insert_keeps_first<K, V>(before: Map<K, V>, key: K, first: V, second: V)
    ensures
        ({
            let kept = kept_or_default(before, key, first);
            let after = before.insert(key, kept);
            &&& kept_or_default(after, key, second) == kept
            &&& after.insert(key, kept_or_default(after, key, second)) == after
        }),
{
    let kept = kept_or_default(before, key, first);
    let after = before.insert(key, kept);
    assert(after.insert(key, kept) =~= after);
}

} // verus!
