//! `std::collections::BTreeMap` as a benchmark map.

use vstd::prelude::*;
use vstd::std_specs::btree::key_obeys_cmp_spec;
use crate::maps::benchmap::{
    BenchMapClone, BenchMapGetCloned, BenchMapIter, BenchMapMutClear, BenchMapMutGetOrInsert,
    BenchMapMutInsert, BenchMapMutRemove, BenchMapNew, BenchMapView,
};
use std::collections::btree_map;

verus! {

broadcast use vstd::std_specs::btree::group_btree_axioms;

#[verifier::reject_recursive_types(K)]
#[verifier::reject_recursive_types(V)]
pub struct BTreeMapBenchMap<K, V> {
    map: btree_map::BTreeMap<K, V>,
}

impl<K, V> BenchMapView<K, V> for BTreeMapBenchMap<K, V> {
    closed spec fn entries(&self) -> Map<K, V> {
        self.map@
    }

    open spec fn obeys_model() -> bool {
        key_obeys_cmp_spec::<K>()
    }
}

impl<K, V> BenchMapNew<K, V> for BTreeMapBenchMap<K, V> where K: Ord, V: Clone {
    fn new() -> (r: Self) {
        Self { map: btree_map::BTreeMap::new() }
    }
}

impl<K, V> BenchMapClone<K, V> for BTreeMapBenchMap<K, V> where K: Ord + Clone, V: Clone {
    fn clone_map(&self) -> (r: Self) {
        Self { map: self.map.clone() }
    }
}

impl<K, V> BenchMapGetCloned<K, V> for BTreeMapBenchMap<K, V> where K: Ord, V: Clone {
    fn get_cloned(&self, key: &K) -> (r: Option<V>) {
        self.map.get(key).cloned()
    }
}

impl<K, V> BenchMapMutGetOrInsert<K, V> for BTreeMapBenchMap<K, V> where K: Ord, V: Clone {
    fn get_or_insert(&mut self, key: K, default: V) -> (r: V) {
        match self.map.get(&key) {
            Some(value) => value.clone(),
            None => {
                let r = default.clone();
                self.map.insert(key, default);
                r
            },
        }
    }
}

impl<K, V> BenchMapMutInsert<K, V> for BTreeMapBenchMap<K, V> where K: Ord, V: Clone {
    fn insert(&mut self, key: K, value: V) {
        self.map.insert(key, value);
    }
}

impl<K, V> BenchMapIter<K, V> for BTreeMapBenchMap<K, V> where K: Ord, V: Clone {
    fn for_each<F: FnMut(&K, &V)>(&self, f: F) {
        let mut f = f;
        for (key, value) in self.map.iter()
            invariant
                forall|k: &K, v: &V| call_requires(f, (k, v)),
        {
            f(key, value);
        }
    }
}

impl<K, V> BenchMapMutRemove<K, V> for BTreeMapBenchMap<K, V> where K: Ord, V: Clone {
    fn remove(&mut self, key: &K) -> (r: Option<V>) {
        self.map.remove(key)
    }
}

impl<K, V> BenchMapMutClear<K, V> for BTreeMapBenchMap<K, V> {
    fn clear(&mut self) {
        self.map.clear();
    }
}

} // verus!
