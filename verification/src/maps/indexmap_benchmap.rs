//! `indexmap::IndexMap` as a benchmark map.

use vstd::prelude::*;
use crate::maps::benchmap::{
    maps_to, BenchMapGetCloned, BenchMapIter, BenchMapMutClear, BenchMapMutInsert,
    BenchMapMutRemove, BenchMapNew, BenchMapView,
};
use indexmap::IndexMap;

verus! {

#[verifier::external_type_specification]
#[verifier::external_body]
#[verifier::reject_recursive_types(K)]
#[verifier::reject_recursive_types(V)]
#[verifier::reject_recursive_types(S)]
pub struct ExIndexMap<K, V, S>(indexmap::IndexMap<K, V, S>);

/// The entries that an `IndexMap<u64, u64>` holds.
pub uninterp spec fn index_map_entries(m: IndexMap<u64, u64>) -> Map<u64, u64>;

/// An empty map (`IndexMap::new`).
///
/// Trusted: `new` creates an empty map.
#[verifier::external_body]
fn index_map_new() -> (m: IndexMap<u64, u64>)
    ensures
        index_map_entries(m).dom() == Set::<u64>::empty(),
{
    IndexMap::new()
}

/// The value under `key` (`IndexMap::get`, copied out).
///
/// Trusted: `get` returns the value stored for the key, if it is present.
#[verifier::external_body]
fn index_map_get(m: &IndexMap<u64, u64>, key: u64) -> (r: Option<u64>)
    ensures
        maps_to(index_map_entries(*m), key, r),
{
    m.get(&key).copied()
}

/// Stores `value` under `key` (`IndexMap::insert`).
///
/// Trusted: `insert` updates the value of a present key and adds an absent
/// one.
#[verifier::external_body]
fn index_map_insert(m: &mut IndexMap<u64, u64>, key: u64, value: u64)
    ensures
        index_map_entries(*final(m)) == index_map_entries(*old(m)).insert(key, value),
{
    m.insert(key, value);
}

/// Removes `key` (`IndexMap::swap_remove`).
///
/// Trusted: `swap_remove` removes the key and returns its value, or `None`
/// when the key is absent; it reorders entries, which the entry map does not
/// record.
#[verifier::external_body]
fn index_map_swap_remove(m: &mut IndexMap<u64, u64>, key: u64) -> (r: Option<u64>)
    ensures
        index_map_entries(*final(m)) == index_map_entries(*old(m)).remove(key),
        maps_to(index_map_entries(*old(m)), key, r),
{
    m.swap_remove(&key)
}

/// Removes every entry (`IndexMap::clear`).
///
/// Trusted: `clear` removes all key-value pairs.
#[verifier::external_body]
fn index_map_clear(m: &mut IndexMap<u64, u64>)
    ensures
        index_map_entries(*final(m)).dom() == Set::<u64>::empty(),
{
    m.clear();
}

/// Hands each entry of `IndexMap::iter` to `f`.
///
/// Trusted: only that `f` can be called on any entry; which entries reach
/// `f` is left unsaid.
#[verifier::external_body]
fn index_map_visit<F: FnMut(&u64, &u64)>(m: &IndexMap<u64, u64>, f: F)
    requires
        forall|k: &u64, v: &u64| call_requires(f, (k, v)),
{
    let mut f = f;
    for (key, value) in m.iter() {
        f(key, value);
    }
}

#[verifier::reject_recursive_types(K)]
#[verifier::reject_recursive_types(V)]
pub struct IndexMapBenchMap<K, V> {
    map: IndexMap<K, V>,
}

impl BenchMapView<u64, u64> for IndexMapBenchMap<u64, u64> {
    closed spec fn entries(&self) -> Map<u64, u64> {
        index_map_entries(self.map)
    }

    open spec fn obeys_model() -> bool {
        true
    }
}

impl BenchMapNew<u64, u64> for IndexMapBenchMap<u64, u64> {
    fn new() -> (r: Self) {
        let r = Self { map: index_map_new() };
        assert(index_map_entries(r.map) =~= Map::<u64, u64>::empty());
        r
    }
}

impl BenchMapGetCloned<u64, u64> for IndexMapBenchMap<u64, u64> {
    fn get_cloned(&self, key: &u64) -> (r: Option<u64>) {
        index_map_get(&self.map, *key)
    }
}

impl BenchMapMutInsert<u64, u64> for IndexMapBenchMap<u64, u64> {
    fn insert(&mut self, key: u64, value: u64) {
        index_map_insert(&mut self.map, key, value);
    }
}

impl BenchMapIter<u64, u64> for IndexMapBenchMap<u64, u64> {
    fn for_each<F: FnMut(&u64, &u64)>(&self, f: F) {
        index_map_visit(&self.map, f);
    }
}

impl BenchMapMutRemove<u64, u64> for IndexMapBenchMap<u64, u64> {
    fn remove(&mut self, key: &u64) -> (r: Option<u64>) {
        index_map_swap_remove(&mut self.map, *key)
    }
}

impl BenchMapMutClear<u64, u64> for IndexMapBenchMap<u64, u64> {
    fn clear(&mut self) {
        index_map_clear(&mut self.map);
        assert(index_map_entries(self.map) =~= Map::<u64, u64>::empty());
    }
}

} // verus!
