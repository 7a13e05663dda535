//! `std::collections::HashMap` as a benchmark map.

use vstd::prelude::*;
use vstd::std_specs::hash::{builds_valid_hashers, obeys_key_model};
use crate::maps::benchmap::{
    BenchMapClone, BenchMapGetCloned, BenchMapIter, BenchMapMutClear, BenchMapMutGetOrInsert,
    BenchMapMutInsert, BenchMapMutRemove, BenchMapName, BenchMapNew, BenchMapNewWithHasher,
    BenchMapView,
};
use std::collections::hash_map::RandomState;
use std::collections::HashMap;
use std::hash::{BuildHasher, Hash};

verus! {

broadcast use vstd::std_specs::hash::group_hash_axioms;

/// An empty `HashMap` that hashes with `hasher` (`HashMap::with_hasher`).
///
/// Trusted: the documentation states that the map is created empty.
#[verifier::external_body]
pub(crate) fn hash_map_with_hasher<K, V, H>(hasher: H) -> (map: HashMap<K, V, H>)
    ensures
        map@.dom() == Set::<K>::empty(),
{
    HashMap::with_hasher(hasher)
}

#[verifier::reject_recursive_types(K)]
#[verifier::reject_recursive_types(V)]
#[verifier::reject_recursive_types(H)]
pub struct StdBenchMap<K, V, H = RandomState> {
    map: HashMap<K, V, H>,
}

impl<K, V, H> BenchMapView<K, V> for StdBenchMap<K, V, H> {
    closed spec fn entries(&self) -> Map<K, V> {
        self.map@
    }

    open spec fn obeys_model() -> bool {
        obeys_key_model::<K>() && builds_valid_hashers::<H>()
    }
}

impl<K, V, H> BenchMapName for StdBenchMap<K, V, H> {
    const NAME: &'static str = "std";
}

impl<K, V, H> BenchMapNew<K, V> for StdBenchMap<K, V, H> where H: BuildHasher + Default {
    fn new() -> (r: Self) {
        let r = Self { map: hash_map_with_hasher(H::default()) };
        assert(r.map@ =~= Map::<K, V>::empty());
        r
    }
}

impl<K, V, H> BenchMapNewWithHasher<K, V, H> for StdBenchMap<K, V, H> where H: BuildHasher {
    fn new_with_hasher(hasher: H) -> (r: Self) {
        let r = Self { map: hash_map_with_hasher(hasher) };
        assert(r.map@ =~= Map::<K, V>::empty());
        r
    }
}

impl<K, V, H> BenchMapClone<K, V> for StdBenchMap<K, V, H> where
    K: Clone,
    V: Clone,
    H: BuildHasher + Clone,
 {
    fn clone_map(&self) -> (r: Self) {
        Self { map: self.map.clone() }
    }
}

impl<K, V, H> BenchMapGetCloned<K, V> for StdBenchMap<K, V, H> where
    K: Hash + Eq,
    V: Clone,
    H: BuildHasher,
 {
    fn get_cloned(&self, key: &K) -> (r: Option<V>) {
        self.map.get(key).cloned()
    }
}

impl<K, V, H> BenchMapMutGetOrInsert<K, V> for StdBenchMap<K, V, H> where
    K: Hash + Eq,
    V: Clone,
    H: BuildHasher,
 {
    fn get_or_insert(&mut self, key: K, default: V) -> (r: V) {
        self.map.entry(key).or_insert(default).clone()
    }
}

impl<K, V, H> BenchMapMutInsert<K, V> for StdBenchMap<K, V, H> where K: Hash + Eq, H: BuildHasher {
    fn insert(&mut self, key: K, value: V) {
        self.map.insert(key, value);
    }
}

impl<K, V, H> BenchMapIter<K, V> for StdBenchMap<K, V, H> where H: BuildHasher {
    fn for_each<F: FnMut(&K, &V)>(&self, f: F) {
        let mut f = f;
        for (key, value) in self.map.iter()
            invariant
                forall|k: &K, v: &V| call_requires(f, (k, v)),
        {
            f(key, value);
        }
    }
}

impl<K, V, H> BenchMapMutRemove<K, V> for StdBenchMap<K, V, H> where K: Hash + Eq, H: BuildHasher {
    fn remove(&mut self, key: &K) -> (r: Option<V>) {
        self.map.remove(key)
    }
}

impl<K, V, H> BenchMapMutClear<K, V> for StdBenchMap<K, V, H> {
    fn clear(&mut self) {
        self.map.clear();
    }
}

} // verus!
