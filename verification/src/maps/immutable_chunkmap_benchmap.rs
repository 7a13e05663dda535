//! `immutable_chunkmap::map::MapM` as a benchmark map, changed in place with
//! its copy-on-write operations.

use vstd::prelude::*;
use crate::maps::benchmap::{
    kept_or_default, maps_to, BenchMapClone, BenchMapGetCloned, BenchMapIter,
    BenchMapMutGetOrInsert, BenchMapMutInsert, BenchMapMutRemove, BenchMapNew, BenchMapView,
};
use immutable_chunkmap::map::MapM;

verus! {

#[verifier::external_type_specification]
#[verifier::external_body]
#[verifier::reject_recursive_types(K)]
#[verifier::reject_recursive_types(V)]
pub struct ExChunkMap<K: Ord + Clone, V: Clone, const SIZE: usize>(
    immutable_chunkmap::map::Map<K, V, SIZE>,
);

/// The entries that a `MapM<u64, u64>` holds.
pub uninterp spec fn chunk_map_entries(m: MapM<u64, u64>) -> Map<u64, u64>;

/// An empty map (`Map::new`).
///
/// Trusted: `new` creates an empty map.
#[verifier::external_body]
fn chunk_map_new() -> (m: MapM<u64, u64>)
    ensures
        chunk_map_entries(m).dom() == Set::<u64>::empty(),
{
    MapM::new()
}

/// A map sharing the entries of `m` (`Clone::clone`).
///
/// Trusted: a clone holds the same bindings (the tree is shared).
#[verifier::external_body]
fn chunk_map_clone(m: &MapM<u64, u64>) -> (r: MapM<u64, u64>)
    ensures
        chunk_map_entries(r) == chunk_map_entries(*m),
{
    m.clone()
}

/// The value under `key` (`Map::get`, copied out).
///
/// Trusted: `get` returns the binding of the key, or `None` when there is
/// none.
#[verifier::external_body]
fn chunk_map_get(m: &MapM<u64, u64>, key: u64) -> (r: Option<u64>)
    ensures
        maps_to(chunk_map_entries(*m), key, r),
{
    m.get(&key).copied()
}

/// Binds `key` to `value` in place (`Map::insert_cow`).
///
/// Trusted: after `insert_cow` the map holds the new binding and keeps the
/// others; the previous binding it returns is not used here.
#[verifier::external_body]
fn chunk_map_insert(m: &mut MapM<u64, u64>, key: u64, value: u64)
    ensures
        chunk_map_entries(*final(m)) == chunk_map_entries(*old(m)).insert(key, value),
{
    m.insert_cow(key, value);
}

/// The value under `key`, bound to `default` first when absent
/// (`Map::get_or_insert_cow`, copied out).
///
/// Trusted: `get_or_insert_cow` inserts the value that its closure returns
/// when the key is absent, and returns the binding of the key.
#[verifier::external_body]
fn chunk_map_get_or_insert(m: &mut MapM<u64, u64>, key: u64, default: u64) -> (r: u64)
    ensures
        r == kept_or_default(chunk_map_entries(*old(m)), key, default),
        chunk_map_entries(*final(m)) == chunk_map_entries(*old(m)).insert(key, r),
{
    *m.get_or_insert_cow(key, || default)
}

/// Removes the binding of `key` in place (`Map::remove_cow`).
///
/// Trusted: `remove_cow` removes the binding and returns its value, or
/// `None` when there was none.
#[verifier::external_body]
fn chunk_map_remove(m: &mut MapM<u64, u64>, key: u64) -> (r: Option<u64>)
    ensures
        chunk_map_entries(*final(m)) == chunk_map_entries(*old(m)).remove(key),
        maps_to(chunk_map_entries(*old(m)), key, r),
{
    m.remove_cow(&key)
}

/// Hands each binding of `m` (in key order, by `&Map`'s `IntoIterator`) to
/// `f`.
///
/// Trusted: only that `f` can be called on any binding; which bindings
/// reach `f` is left unsaid.
#[verifier::external_body]
fn chunk_map_visit<F: FnMut(&u64, &u64)>(m: &MapM<u64, u64>, f: F)
    requires
        forall|k: &u64, v: &u64| call_requires(f, (k, v)),
{
    let mut f = f;
    for (key, value) in m {
        f(key, value);
    }
}

#[verifier::reject_recursive_types(K)]
#[verifier::reject_recursive_types(V)]
pub struct ImmutableChunkMapBenchMap<K: Ord + Clone, V: Clone> {
    map: MapM<K, V>,
}

impl BenchMapView<u64, u64> for ImmutableChunkMapBenchMap<u64, u64> {
    closed spec fn entries(&self) -> Map<u64, u64> {
        chunk_map_entries(self.map)
    }

    open spec fn obeys_model() -> bool {
        true
    }
}

impl BenchMapNew<u64, u64> for ImmutableChunkMapBenchMap<u64, u64> {
    fn new() -> (r: Self) {
        let r = Self { map: chunk_map_new() };
        assert(chunk_map_entries(r.map) =~= Map::<u64, u64>::empty());
        r
    }
}

impl BenchMapClone<u64, u64> for ImmutableChunkMapBenchMap<u64, u64> {
    fn clone_map(&self) -> (r: Self) {
        Self { map: chunk_map_clone(&self.map) }
    }
}

impl BenchMapGetCloned<u64, u64> for ImmutableChunkMapBenchMap<u64, u64> {
    fn get_cloned(&self, key: &u64) -> (r: Option<u64>) {
        chunk_map_get(&self.map, *key)
    }
}

impl BenchMapMutGetOrInsert<u64, u64> for ImmutableChunkMapBenchMap<u64, u64> {
    fn get_or_insert(&mut self, key: u64, default: u64) -> (r: u64) {
        chunk_map_get_or_insert(&mut self.map, key, default)
    }
}

impl BenchMapMutInsert<u64, u64> for ImmutableChunkMapBenchMap<u64, u64> {
    fn insert(&mut self, key: u64, value: u64) {
        chunk_map_insert(&mut self.map, key, value);
    }
}

impl BenchMapIter<u64, u64> for ImmutableChunkMapBenchMap<u64, u64> {
    fn for_each<F: FnMut(&u64, &u64)>(&self, f: F) {
        chunk_map_visit(&self.map, f);
    }
}

impl BenchMapMutRemove<u64, u64> for ImmutableChunkMapBenchMap<u64, u64> {
    fn remove(&mut self, key: &u64) -> (r: Option<u64>) {
        chunk_map_remove(&mut self.map, *key)
    }
}

} // verus!
