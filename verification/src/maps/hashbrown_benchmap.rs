//! `hashbrown::HashMap` as a benchmark map.

use vstd::prelude::*;
use crate::maps::benchmap::{
    maps_to, BenchMapGetCloned, BenchMapIter, BenchMapMutClear, BenchMapMutInsert,
    BenchMapMutRemove, BenchMapNew, BenchMapView,
};

verus! {

/// A benchmark map backed by `hashbrown::HashMap<K, V>`.
///
/// The map is private and reached only through the functions below, since
/// `hashbrown::HashMap`'s allocator parameter is bounded by a trait that
/// hashbrown does not export. For `u64` keys and values its contents are
/// `hashbrown_entries`.
#[verifier::external_body]
#[verifier::reject_recursive_types(K)]
#[verifier::reject_recursive_types(V)]
pub struct HashbrownBenchMap<K, V> {
    map: hashbrown::HashMap<K, V>,
}

/// The entries that a `hashbrown::HashMap<u64, u64>` holds.
pub uninterp spec fn hashbrown_entries(m: HashbrownBenchMap<u64, u64>) -> Map<u64, u64>;

/// An empty map (`hashbrown::HashMap::new`).
///
/// Trusted: `new` creates an empty map.
#[verifier::external_body]
fn hashbrown_new() -> (m: HashbrownBenchMap<u64, u64>)
    ensures
        hashbrown_entries(m).dom() == Set::<u64>::empty(),
{
    HashbrownBenchMap { map: hashbrown::HashMap::new() }
}

/// The value under `key` (`hashbrown::HashMap::get`, copied out).
///
/// Trusted: `get` returns the value stored under the key, if any.
#[verifier::external_body]
fn hashbrown_get(m: &HashbrownBenchMap<u64, u64>, key: u64) -> (r: Option<u64>)
    ensures
        maps_to(hashbrown_entries(*m), key, r),
{
    m.map.get(&key).copied()
}

/// Stores `value` under `key` (`hashbrown::HashMap::insert`).
///
/// Trusted: `insert` stores the value, replacing any value under the key.
#[verifier::external_body]
fn hashbrown_insert(m: &mut HashbrownBenchMap<u64, u64>, key: u64, value: u64)
    ensures
        hashbrown_entries(*final(m)) == hashbrown_entries(*old(m)).insert(key, value),
{
    m.map.insert(key, value);
}

/// Removes `key` (`hashbrown::HashMap::remove`).
///
/// Trusted: `remove` deletes the key and returns the value that was under it.
#[verifier::external_body]
fn hashbrown_remove(m: &mut HashbrownBenchMap<u64, u64>, key: u64) -> (r: Option<u64>)
    ensures
        hashbrown_entries(*final(m)) == hashbrown_entries(*old(m)).remove(key),
        maps_to(hashbrown_entries(*old(m)), key, r),
{
    m.map.remove(&key)
}

/// Removes every entry (`hashbrown::HashMap::clear`).
///
/// Trusted: `clear` leaves the map empty.
#[verifier::external_body]
fn hashbrown_clear(m: &mut HashbrownBenchMap<u64, u64>)
    ensures
        hashbrown_entries(*final(m)).dom() == Set::<u64>::empty(),
{
    m.map.clear();
}

/// Hands each entry of `hashbrown::HashMap::iter` to `f`.
///
/// Trusted: only that `f` can be called on any entry; which entries reach
/// `f`, and in what order, is left unsaid.
#[verifier::external_body]
fn hashbrown_visit<F: FnMut(&u64, &u64)>(m: &HashbrownBenchMap<u64, u64>, f: F)
    requires
        forall|k: &u64, v: &u64| call_requires(f, (k, v)),
{
    let mut f = f;
    for (key, value) in m.map.iter() {
        f(key, value);
    }
}

impl BenchMapView<u64, u64> for HashbrownBenchMap<u64, u64> {
    closed spec fn entries(&self) -> Map<u64, u64> {
        hashbrown_entries(*self)
    }

    open spec fn obeys_model() -> bool {
        true
    }
}

impl BenchMapNew<u64, u64> for HashbrownBenchMap<u64, u64> {
    fn new() -> (r: Self) {
        let r = hashbrown_new();
        assert(hashbrown_entries(r) =~= Map::<u64, u64>::empty());
        r
    }
}

impl BenchMapGetCloned<u64, u64> for HashbrownBenchMap<u64, u64> {
    fn get_cloned(&self, key: &u64) -> (r: Option<u64>) {
        hashbrown_get(self, *key)
    }
}

impl BenchMapMutInsert<u64, u64> for HashbrownBenchMap<u64, u64> {
    fn insert(&mut self, key: u64, value: u64) {
        hashbrown_insert(self, key, value);
    }
}

impl BenchMapIter<u64, u64> for HashbrownBenchMap<u64, u64> {
    fn for_each<F: FnMut(&u64, &u64)>(&self, f: F) {
        hashbrown_visit(self, f);
    }
}

impl BenchMapMutRemove<u64, u64> for HashbrownBenchMap<u64, u64> {
    fn remove(&mut self, key: &u64) -> (r: Option<u64>) {
        hashbrown_remove(self, *key)
    }
}

impl BenchMapMutClear<u64, u64> for HashbrownBenchMap<u64, u64> {
    fn clear(&mut self) {
        hashbrown_clear(self);
        assert(hashbrown_entries(*self) =~= Map::<u64, u64>::empty());
    }
}

} // verus!
