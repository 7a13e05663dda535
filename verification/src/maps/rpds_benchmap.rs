//! `rpds::HashTrieMap`, a persistent hash trie, as a benchmark map, changed in
//! place with its `_mut` operations (copy on write when shared). Its default
//! pointer kind, `archery::RcK`, is not `Send`, so it takes no part in the
//! concurrent workloads.

use vstd::prelude::*;
use crate::maps::benchmap::{
    maps_to, BenchMapClone, BenchMapGetCloned, BenchMapIter, BenchMapMutClear, BenchMapMutInsert,
    BenchMapMutRemove, BenchMapNew, BenchMapNewWithHasher, BenchMapView,
};
use crate::random::new_random_state;
use rpds::HashTrieMap;
use std::collections::hash_map::RandomState;
use std::hash::BuildHasher;

verus! {

/// A benchmark map backed by `rpds::HashTrieMap<K, V, archery::RcK, H>`,
/// with the hasher builder it was made with (to rebuild it empty).
///
/// The map is private and reached only through the functions below, since
/// `HashTrieMap`'s pointer-kind parameter is bounded by a trait of the
/// `archery` crate. For `u64` keys and values hashed with `RandomState` its
/// contents are `rpds_entries`.
#[verifier::external_body]
#[verifier::reject_recursive_types(K)]
#[verifier::reject_recursive_types(V)]
#[verifier::reject_recursive_types(H)]
pub struct RpdsHashTrieMapBenchMap<K, V, H: BuildHasher = RandomState> {
    map: HashTrieMap<K, V, archery::RcK, H>,
    hasher: H,
}

/// The entries that an `rpds::HashTrieMap<u64, u64>` holds.
pub uninterp spec fn rpds_entries(m: RpdsHashTrieMapBenchMap<u64, u64, RandomState>) -> Map<
    u64,
    u64,
>;

/// The hasher builder that an `rpds::HashTrieMap<u64, u64>` adapter keeps
/// (and whose clones its trie hashes with).
pub uninterp spec fn rpds_hasher(m: RpdsHashTrieMapBenchMap<u64, u64, RandomState>) -> RandomState;

/// An empty map hashing with a clone of `hasher`
/// (`HashTrieMap::new_with_hasher_and_ptr_kind`), which also keeps `hasher`.
///
/// Trusted: the new map is empty, and the adapter keeps the given hasher
/// builder.
#[verifier::external_body]
fn rpds_with_hasher(hasher: RandomState) -> (m: RpdsHashTrieMapBenchMap<u64, u64, RandomState>)
    ensures
        rpds_entries(m).dom() == Set::<u64>::empty(),
        rpds_hasher(m) == hasher,
{
    RpdsHashTrieMapBenchMap {
        map: HashTrieMap::new_with_hasher_and_ptr_kind(hasher.clone()),
        hasher,
    }
}

/// A map sharing the entries of `m` (`Clone::clone`).
///
/// Trusted: a clone holds the same entries (the trie is shared).
#[verifier::external_body]
fn rpds_clone(m: &RpdsHashTrieMapBenchMap<u64, u64, RandomState>) -> (r: RpdsHashTrieMapBenchMap<
    u64,
    u64,
    RandomState,
>)
    ensures
        rpds_entries(r) == rpds_entries(*m),
{
    RpdsHashTrieMapBenchMap { map: m.map.clone(), hasher: m.hasher.clone() }
}

/// The value under `key` (`HashTrieMap::get`, copied out).
///
/// Trusted: `get` returns the value of the key, if it is present.
#[verifier::external_body]
fn rpds_get(m: &RpdsHashTrieMapBenchMap<u64, u64, RandomState>, key: u64) -> (r: Option<u64>)
    ensures
        maps_to(rpds_entries(*m), key, r),
{
    m.map.get(&key).copied()
}

/// Stores `value` under `key` in place (`HashTrieMap::insert_mut`).
///
/// Trusted: `insert_mut` replaces the value of a present key and adds an
/// absent one.
#[verifier::external_body]
fn rpds_insert(m: &mut RpdsHashTrieMapBenchMap<u64, u64, RandomState>, key: u64, value: u64)
    ensures
        rpds_entries(*final(m)) == rpds_entries(*old(m)).insert(key, value),
{
    m.map.insert_mut(key, value);
}

/// Removes `key` in place (`HashTrieMap::remove_mut`).
///
/// Trusted: `remove_mut` removes the key and returns whether it was
/// present.
#[verifier::external_body]
fn rpds_remove(m: &mut RpdsHashTrieMapBenchMap<u64, u64, RandomState>, key: u64) -> (removed: bool)
    ensures
        rpds_entries(*final(m)) == rpds_entries(*old(m)).remove(key),
        removed == rpds_entries(*old(m)).contains_key(key),
{
    m.map.remove_mut(&key)
}

/// Replaces the map by an empty one hashing with the kept hasher builder
/// (`HashTrieMap::new_with_hasher_and_ptr_kind`).
///
/// Trusted: the new map is empty.
#[verifier::external_body]
fn rpds_clear(m: &mut RpdsHashTrieMapBenchMap<u64, u64, RandomState>)
    ensures
        rpds_entries(*final(m)).dom() == Set::<u64>::empty(),
{
    m.map = HashTrieMap::new_with_hasher_and_ptr_kind(m.hasher.clone());
}

/// Hands each entry of `HashTrieMap::iter` to `f`.
///
/// Trusted: only that `f` can be called on any entry; which entries reach
/// `f` is left unsaid.
#[verifier::external_body]
fn rpds_visit<F: FnMut(&u64, &u64)>(m: &RpdsHashTrieMapBenchMap<u64, u64, RandomState>, f: F)
    requires
        forall|k: &u64, v: &u64| call_requires(f, (k, v)),
{
    let mut f = f;
    for (key, value) in m.map.iter() {
        f(key, value);
    }
}

impl BenchMapView<u64, u64> for RpdsHashTrieMapBenchMap<u64, u64, RandomState> {
    closed spec fn entries(&self) -> Map<u64, u64> {
        rpds_entries(*self)
    }

    open spec fn obeys_model() -> bool {
        true
    }
}

impl BenchMapNew<u64, u64> for RpdsHashTrieMapBenchMap<u64, u64, RandomState> {
    fn new() -> (r: Self) {
        let r = rpds_with_hasher(new_random_state());
        assert(rpds_entries(r) =~= Map::<u64, u64>::empty());
        r
    }
}

impl BenchMapNewWithHasher<u64, u64, RandomState> for RpdsHashTrieMapBenchMap<
    u64,
    u64,
    RandomState,
> {
    /// An empty map that hashes its keys with (clones of) `hasher`.
    fn new_with_hasher(hasher: RandomState) -> (r: Self)
        ensures
            rpds_hasher(r) == hasher,
    {
        let r = rpds_with_hasher(hasher);
        assert(rpds_entries(r) =~= Map::<u64, u64>::empty());
        r
    }
}

impl BenchMapClone<u64, u64> for RpdsHashTrieMapBenchMap<u64, u64, RandomState> {
    fn clone_map(&self) -> (r: Self) {
        rpds_clone(self)
    }
}

impl BenchMapGetCloned<u64, u64> for RpdsHashTrieMapBenchMap<u64, u64, RandomState> {
    fn get_cloned(&self, key: &u64) -> (r: Option<u64>) {
        rpds_get(self, *key)
    }
}

impl BenchMapMutInsert<u64, u64> for RpdsHashTrieMapBenchMap<u64, u64, RandomState> {
    fn insert(&mut self, key: u64, value: u64) {
        rpds_insert(self, key, value);
    }
}

impl BenchMapIter<u64, u64> for RpdsHashTrieMapBenchMap<u64, u64, RandomState> {
    fn for_each<F: FnMut(&u64, &u64)>(&self, f: F) {
        rpds_visit(self, f);
    }
}

impl BenchMapMutRemove<u64, u64> for RpdsHashTrieMapBenchMap<u64, u64, RandomState> {
    /// The value under `key`, read before the key is removed.
    fn remove(&mut self, key: &u64) -> (r: Option<u64>) {
        let value = rpds_get(self, *key);
        rpds_remove(self, *key);
        value
    }
}

impl BenchMapMutClear<u64, u64> for RpdsHashTrieMapBenchMap<u64, u64, RandomState> {
    fn clear(&mut self) {
        rpds_clear(self);
        assert(rpds_entries(*self) =~= Map::<u64, u64>::empty());
    }
}

} // verus!
