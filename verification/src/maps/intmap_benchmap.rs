//! `intmap::IntMap` as a benchmark map.

use vstd::prelude::*;
use crate::maps::benchmap::{
    kept_or_default,
    maps_to, BenchMapClone, BenchMapGetCloned, BenchMapIter, BenchMapMutClear,
    BenchMapMutGetOrInsert, BenchMapMutInsert, BenchMapMutRemove, BenchMapName, BenchMapNew,
    BenchMapView,
};
use intmap::IntMap;

verus! {

#[verifier::external_type_specification]
#[verifier::external_body]
#[verifier::reject_recursive_types(K)]
#[verifier::reject_recursive_types(V)]
pub struct ExIntMap<K, V>(intmap::IntMap<K, V>);

/// The entries that an `IntMap<u64, u64>` holds.
pub uninterp spec fn int_map_entries(m: IntMap<u64, u64>) -> Map<u64, u64>;

/// An empty map (`IntMap::new`).
///
/// Trusted: `new` creates an empty map.
#[verifier::external_body]
fn int_map_new() -> (m: IntMap<u64, u64>)
    ensures
        int_map_entries(m).dom() == Set::<u64>::empty(),
{
    IntMap::new()
}

/// A copy of the map (`IntMap::clone`, derived).
///
/// Trusted: the derived clone copies every slot, so the copy holds the same
/// entries.
#[verifier::external_body]
fn int_map_clone(m: &IntMap<u64, u64>) -> (c: IntMap<u64, u64>)
    ensures
        int_map_entries(c) == int_map_entries(*m),
{
    m.clone()
}

/// The value under `key` (`IntMap::get`, copied out).
///
/// Trusted: `get` returns the value stored under the key, if any.
#[verifier::external_body]
fn int_map_get(m: &IntMap<u64, u64>, key: u64) -> (r: Option<u64>)
    ensures
        maps_to(int_map_entries(*m), key, r),
{
    m.get(key).copied()
}

/// Stores `value` under `key` (`IntMap::insert`).
///
/// Trusted: `insert` stores the pair, replacing the previous value if any.
#[verifier::external_body]
fn int_map_insert(m: &mut IntMap<u64, u64>, key: u64, value: u64)
    ensures
        int_map_entries(*final(m)) == int_map_entries(*old(m)).insert(key, value),
{
    m.insert(key, value);
}

/// Removes `key` (`IntMap::remove`).
///
/// Trusted: `remove` deletes the key and returns its value, if any.
#[verifier::external_body]
fn int_map_remove(m: &mut IntMap<u64, u64>, key: u64) -> (r: Option<u64>)
    ensures
        int_map_entries(*final(m)) == int_map_entries(*old(m)).remove(key),
        maps_to(int_map_entries(*old(m)), key, r),
{
    m.remove(key)
}

/// Removes every entry (`IntMap::clear`).
///
/// Trusted: `clear` empties every slot.
#[verifier::external_body]
fn int_map_clear(m: &mut IntMap<u64, u64>)
    ensures
        int_map_entries(*final(m)).dom() == Set::<u64>::empty(),
{
    m.clear();
}

/// The value under `key`, stored as `default` first when absent
/// (`IntMap::entry` then `Entry::or_insert`, copied out).
///
/// Trusted: `or_insert` keeps the value of an occupied entry and inserts the
/// default into a vacant one, returning the entry's value.
#[verifier::external_body]
fn int_map_get_or_insert(m: &mut IntMap<u64, u64>, key: u64, default: u64) -> (r: u64)
    ensures
        r == kept_or_default(int_map_entries(*old(m)), key, default),
        int_map_entries(*final(m)) == int_map_entries(*old(m)).insert(key, r),
{
    *m.entry(key).or_insert(default)
}

/// Hands each entry of `IntMap::iter` to `f`.
///
/// Trusted: only that `f` can be called on any entry; which entries reach
/// `f` is left unsaid.
#[verifier::external_body]
fn int_map_visit<F: FnMut(&u64, &u64)>(m: &IntMap<u64, u64>, f: F)
    requires
        forall|k: &u64, v: &u64| call_requires(f, (k, v)),
{
    let mut f = f;
    for (key, value) in m.iter() {
        f(&key, value);
    }
}

#[verifier::reject_recursive_types(K)]
#[verifier::reject_recursive_types(V)]
pub struct IntMapBenchMap<K, V> {
    map: IntMap<K, V>,
}

impl<K, V> BenchMapName for IntMapBenchMap<K, V> {
    const NAME: &'static str = "intmap";
}

impl BenchMapView<u64, u64> for IntMapBenchMap<u64, u64> {
    closed spec fn entries(&self) -> Map<u64, u64> {
        int_map_entries(self.map)
    }

    open spec fn obeys_model() -> bool {
        true
    }
}

impl BenchMapNew<u64, u64> for IntMapBenchMap<u64, u64> {
    fn new() -> (r: Self) {
        let r = Self { map: int_map_new() };
        assert(int_map_entries(r.map) =~= Map::<u64, u64>::empty());
        r
    }
}

impl BenchMapClone<u64, u64> for IntMapBenchMap<u64, u64> {
    fn clone_map(&self) -> (r: Self) {
        Self { map: int_map_clone(&self.map) }
    }
}

impl BenchMapGetCloned<u64, u64> for IntMapBenchMap<u64, u64> {
    fn get_cloned(&self, key: &u64) -> (r: Option<u64>) {
        int_map_get(&self.map, *key)
    }
}

impl BenchMapMutGetOrInsert<u64, u64> for IntMapBenchMap<u64, u64> {
    fn get_or_insert(&mut self, key: u64, default: u64) -> (r: u64) {
        int_map_get_or_insert(&mut self.map, key, default)
    }
}

impl BenchMapMutInsert<u64, u64> for IntMapBenchMap<u64, u64> {
    fn insert(&mut self, key: u64, value: u64) {
        int_map_insert(&mut self.map, key, value);
    }
}

impl BenchMapIter<u64, u64> for IntMapBenchMap<u64, u64> {
    fn for_each<F: FnMut(&u64, &u64)>(&self, f: F) {
        int_map_visit(&self.map, f);
    }
}

impl BenchMapMutRemove<u64, u64> for IntMapBenchMap<u64, u64> {
    fn remove(&mut self, key: &u64) -> (r: Option<u64>) {
        int_map_remove(&mut self.map, *key)
    }
}

impl BenchMapMutClear<u64, u64> for IntMapBenchMap<u64, u64> {
    fn clear(&mut self) {
        int_map_clear(&mut self.map);
        assert(int_map_entries(self.map) =~= Map::<u64, u64>::empty());
    }
}

} // verus!
