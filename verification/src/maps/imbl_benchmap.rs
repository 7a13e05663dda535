//! `imbl::HashMap`, a persistent hash map, as a benchmark map.

use vstd::prelude::*;
use crate::random::new_random_state;
use crate::maps::benchmap::{
    kept_or_default, maps_to, BenchMapClone, BenchMapGetCloned, BenchMapIter, BenchMapMutClear,
    BenchMapMutGetOrInsert, BenchMapMutInsert, BenchMapMutRemove, BenchMapName, BenchMapNew,
    BenchMapNewWithHasher, BenchMapView,
};
use imbl::hashmap::GenericHashMap;
use imbl::shared_ptr::DefaultSharedPtr;
use std::collections::hash_map::RandomState;

verus! {

/// A benchmark map backed by `imbl::hashmap::GenericHashMap<K, V, H, _>`.
///
/// The map is private and reached only through the functions below, since
/// `GenericHashMap`'s pointer-kind parameter is bounded by a trait of the
/// `archery` crate. For `u64` keys and values hashed with `RandomState` its
/// contents are `imbl_entries`.
#[verifier::external_body]
#[verifier::reject_recursive_types(K)]
#[verifier::reject_recursive_types(V)]
#[verifier::reject_recursive_types(H)]
pub struct ImblBenchMap<K, V, H = RandomState> {
    map: GenericHashMap<K, V, H, DefaultSharedPtr>,
}

/// The entries that an `imbl::HashMap<u64, u64>` holds.
pub uninterp spec fn imbl_entries(m: ImblBenchMap<u64, u64, RandomState>) -> Map<
    u64,
    u64,
>;

/// The hasher builder that an `imbl::HashMap<u64, u64>` hashes its keys with.
pub uninterp spec fn imbl_hasher(m: ImblBenchMap<u64, u64, RandomState>) -> RandomState;

/// An empty map that hashes with `hasher` (`GenericHashMap::with_hasher`).
///
/// Trusted: `with_hasher` creates an empty map that keeps `hasher` as its
/// hasher builder.
#[verifier::external_body]
fn imbl_with_hasher(hasher: RandomState) -> (m: ImblBenchMap<u64, u64, RandomState>)
    ensures
        imbl_entries(m).dom() == Set::<u64>::empty(),
        imbl_hasher(m) == hasher,
{
    ImblBenchMap { map: GenericHashMap::with_hasher(hasher) }
}

/// A map sharing the entries of `m` (`Clone::clone`).
///
/// Trusted: a clone holds the same entries (the structure is shared).
#[verifier::external_body]
fn imbl_clone(m: &ImblBenchMap<u64, u64, RandomState>) -> (r: ImblBenchMap<u64, u64, RandomState>)
    ensures
        imbl_entries(r) == imbl_entries(*m),
{
    ImblBenchMap { map: m.map.clone() }
}

/// The value under `key` (`GenericHashMap::get`, copied out).
///
/// Trusted: `get` returns the value of the key, if it is present.
#[verifier::external_body]
fn imbl_get(m: &ImblBenchMap<u64, u64, RandomState>, key: u64) -> (r: Option<
    u64,
>)
    ensures
        maps_to(imbl_entries(*m), key, r),
{
    m.map.get(&key).copied()
}

/// Stores `value` under `key` (`GenericHashMap::insert`).
///
/// Trusted: `insert` replaces the value of a present key and adds an absent
/// one.
#[verifier::external_body]
fn imbl_insert(m: &mut ImblBenchMap<u64, u64, RandomState>, key: u64, value: u64)
    ensures
        imbl_entries(*final(m)) == imbl_entries(*old(m)).insert(key, value),
{
    m.map.insert(key, value);
}

/// The value under `key`, stored as `default` first when absent
/// (`GenericHashMap::entry` then `Entry::or_insert`, copied out).
///
/// Trusted: `or_insert` inserts the default into a vacant entry and returns
/// the entry's value.
#[verifier::external_body]
fn imbl_get_or_insert(
    m: &mut ImblBenchMap<u64, u64, RandomState>,
    key: u64,
    default: u64,
) -> (r: u64)
    ensures
        r == kept_or_default(imbl_entries(*old(m)), key, default),
        imbl_entries(*final(m)) == imbl_entries(*old(m)).insert(key, r),
{
    *m.map.entry(key).or_insert(default)
}

/// Removes `key` (`GenericHashMap::remove`).
///
/// Trusted: `remove` removes the key and returns its value, if it was
/// present.
#[verifier::external_body]
fn imbl_remove(m: &mut ImblBenchMap<u64, u64, RandomState>, key: u64) -> (r:
    Option<u64>)
    ensures
        imbl_entries(*final(m)) == imbl_entries(*old(m)).remove(key),
        maps_to(imbl_entries(*old(m)), key, r),
{
    m.map.remove(&key)
}

/// Removes every entry (`GenericHashMap::clear`).
///
/// Trusted: `clear` leaves the map empty.
#[verifier::external_body]
fn imbl_clear(m: &mut ImblBenchMap<u64, u64, RandomState>)
    ensures
        imbl_entries(*final(m)).dom() == Set::<u64>::empty(),
{
    m.map.clear();
}

/// Hands each entry of `GenericHashMap::iter` to `f`.
///
/// Trusted: only that `f` can be called on any entry; which entries reach
/// `f` is left unsaid.
#[verifier::external_body]
fn imbl_visit<F: FnMut(&u64, &u64)>(m: &ImblBenchMap<u64, u64, RandomState>, f: F)
    requires
        forall|k: &u64, v: &u64| call_requires(f, (k, v)),
{
    let mut f = f;
    for (key, value) in m.map.iter() {
        f(key, value);
    }
}

impl<K, V, H> BenchMapName for ImblBenchMap<K, V, H> {
    const NAME: &'static str = "imbl";
}

impl BenchMapView<u64, u64> for ImblBenchMap<u64, u64, RandomState> {
    closed spec fn entries(&self) -> Map<u64, u64> {
        imbl_entries(*self)
    }

    open spec fn obeys_model() -> bool {
        true
    }
}

impl BenchMapNew<u64, u64> for ImblBenchMap<u64, u64, RandomState> {
    fn new() -> (r: Self) {
        let r = imbl_with_hasher(new_random_state());
        assert(imbl_entries(r) =~= Map::<u64, u64>::empty());
        r
    }
}

impl BenchMapNewWithHasher<u64, u64, RandomState> for ImblBenchMap<u64, u64, RandomState> {
    /// An empty map that hashes its keys with `hasher`.
    fn new_with_hasher(hasher: RandomState) -> (r: Self)
        ensures
            imbl_hasher(r) == hasher,
    {
        let r = imbl_with_hasher(hasher);
        assert(imbl_entries(r) =~= Map::<u64, u64>::empty());
        r
    }
}

impl BenchMapClone<u64, u64> for ImblBenchMap<u64, u64, RandomState> {
    fn clone_map(&self) -> (r: Self) {
        imbl_clone(self)
    }
}

impl BenchMapGetCloned<u64, u64> for ImblBenchMap<u64, u64, RandomState> {
    fn get_cloned(&self, key: &u64) -> (r: Option<u64>) {
        imbl_get(self, *key)
    }
}

impl BenchMapMutGetOrInsert<u64, u64> for ImblBenchMap<u64, u64, RandomState> {
    fn get_or_insert(&mut self, key: u64, default: u64) -> (r: u64) {
        imbl_get_or_insert(self, key, default)
    }
}

impl BenchMapMutInsert<u64, u64> for ImblBenchMap<u64, u64, RandomState> {
    fn insert(&mut self, key: u64, value: u64) {
        imbl_insert(self, key, value);
    }
}

impl BenchMapIter<u64, u64> for ImblBenchMap<u64, u64, RandomState> {
    fn for_each<F: FnMut(&u64, &u64)>(&self, f: F) {
        imbl_visit(self, f);
    }
}

impl BenchMapMutRemove<u64, u64> for ImblBenchMap<u64, u64, RandomState> {
    fn remove(&mut self, key: &u64) -> (r: Option<u64>) {
        imbl_remove(self, *key)
    }
}

impl BenchMapMutClear<u64, u64> for ImblBenchMap<u64, u64, RandomState> {
    fn clear(&mut self) {
        imbl_clear(self);
        assert(imbl_entries(*self) =~= Map::<u64, u64>::empty());
    }
}

} // verus!
