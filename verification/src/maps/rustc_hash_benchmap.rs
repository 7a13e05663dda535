//! `rustc_hash::FxHashMap` (a `std::collections::HashMap` hashing with
//! `FxBuildHasher`) as a benchmark map.

use vstd::prelude::*;
use crate::maps::benchmap::{
    maps_to, BenchMapClone, BenchMapGetCloned, BenchMapIter, BenchMapMutClear, BenchMapMutInsert,
    BenchMapMutRemove, BenchMapNew, BenchMapView,
};
use rustc_hash::FxHashMap;

verus! {

#[verifier::external_type_specification]
#[verifier::external_body]
pub struct ExFxBuildHasher(rustc_hash::FxBuildHasher);

// `FxBuildHasher` builds the same hasher each time (its hasher has no random
// state), so a key is found where it was stored: the operations below act on
// the map's view as a map of `u64` keys to `u64` values.

/// An empty map (`Default::default` for `FxHashMap`).
///
/// Trusted: the default map is empty.
#[verifier::external_body]
fn fx_map_new() -> (m: FxHashMap<u64, u64>)
    ensures
        m@.dom() == Set::<u64>::empty(),
{
    FxHashMap::default()
}

/// A map with the same entries (`Clone::clone`).
///
/// Trusted: a clone holds the same entries.
#[verifier::external_body]
fn fx_map_clone(m: &FxHashMap<u64, u64>) -> (r: FxHashMap<u64, u64>)
    ensures
        r@ == m@,
{
    m.clone()
}

/// The value under `key` (`HashMap::get`, copied out).
///
/// Trusted: `get` returns the value of the key, if it is present; with the
/// deterministic `FxBuildHasher` a key is always found where it was put.
#[verifier::external_body]
fn fx_map_get(m: &FxHashMap<u64, u64>, key: u64) -> (r: Option<u64>)
    ensures
        maps_to(m@, key, r),
{
    m.get(&key).copied()
}

/// Stores `value` under `key` (`HashMap::insert`).
///
/// Trusted: `insert` replaces the value of a present key and adds an absent
/// one.
#[verifier::external_body]
fn fx_map_insert(m: &mut FxHashMap<u64, u64>, key: u64, value: u64)
    ensures
        final(m)@ == old(m)@.insert(key, value),
{
    m.insert(key, value);
}

/// Removes `key` (`HashMap::remove`).
///
/// Trusted: `remove` removes the key and returns its value, if it was
/// present.
#[verifier::external_body]
fn fx_map_remove(m: &mut FxHashMap<u64, u64>, key: u64) -> (r: Option<u64>)
    ensures
        final(m)@ == old(m)@.remove(key),
        maps_to(old(m)@, key, r),
{
    m.remove(&key)
}

/// Removes every entry (`HashMap::clear`).
///
/// Trusted: `clear` leaves the map empty.
#[verifier::external_body]
fn fx_map_clear(m: &mut FxHashMap<u64, u64>)
    ensures
        final(m)@.dom() == Set::<u64>::empty(),
{
    m.clear();
}

/// Hands each entry of `HashMap::iter` to `f`.
///
/// Trusted: only that `f` can be called on any entry; which entries reach
/// `f` is left unsaid.
#[verifier::external_body]
fn fx_map_visit<F: FnMut(&u64, &u64)>(m: &FxHashMap<u64, u64>, f: F)
    requires
        forall|k: &u64, v: &u64| call_requires(f, (k, v)),
{
    let mut f = f;
    for (key, value) in m.iter() {
        f(key, value);
    }
}

#[verifier::reject_recursive_types(K)]
#[verifier::reject_recursive_types(V)]
pub struct RustCHashBenchMap<K, V> {
    map: FxHashMap<K, V>,
}

impl BenchMapView<u64, u64> for RustCHashBenchMap<u64, u64> {
    closed spec fn entries(&self) -> Map<u64, u64> {
        self.map@
    }

    open spec fn obeys_model() -> bool {
        true
    }
}

impl BenchMapNew<u64, u64> for RustCHashBenchMap<u64, u64> {
    fn new() -> (r: Self) {
        let r = Self { map: fx_map_new() };
        assert(r.map@ =~= Map::<u64, u64>::empty());
        r
    }
}

impl BenchMapClone<u64, u64> for RustCHashBenchMap<u64, u64> {
    fn clone_map(&self) -> (r: Self) {
        Self { map: fx_map_clone(&self.map) }
    }
}

impl BenchMapGetCloned<u64, u64> for RustCHashBenchMap<u64, u64> {
    fn get_cloned(&self, key: &u64) -> (r: Option<u64>) {
        fx_map_get(&self.map, *key)
    }
}

impl BenchMapMutInsert<u64, u64> for RustCHashBenchMap<u64, u64> {
    fn insert(&mut self, key: u64, value: u64) {
        fx_map_insert(&mut self.map, key, value);
    }
}

impl BenchMapIter<u64, u64> for RustCHashBenchMap<u64, u64> {
    fn for_each<F: FnMut(&u64, &u64)>(&self, f: F) {
        fx_map_visit(&self.map, f);
    }
}

impl BenchMapMutRemove<u64, u64> for RustCHashBenchMap<u64, u64> {
    fn remove(&mut self, key: &u64) -> (r: Option<u64>) {
        fx_map_remove(&mut self.map, *key)
    }
}

impl BenchMapMutClear<u64, u64> for RustCHashBenchMap<u64, u64> {
    fn clear(&mut self) {
        fx_map_clear(&mut self.map);
        assert(self.map@ =~= Map::<u64, u64>::empty());
    }
}

} // verus!
