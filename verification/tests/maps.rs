use bench_map::data::u64_sparse::U64SparseDataGen;
use bench_map::map_gen::MapGen;
use bench_map::maps::{
    BTreeMapBenchMap, BenchMapClone, BenchMapGetCloned, BenchMapIter, BenchMapMutClear,
    BenchMapMutGetOrInsert, BenchMapMutInsert, BenchMapMutRemove, BenchMapName, BenchMapNew,
    BenchMapNewWithHasher, HashbrownBenchMap, ImblBenchMap, ImmutableChunkMapBenchMap,
    IndexMapBenchMap, IntMapBenchMap, RpdsHashTrieMapBenchMap, RustCHashBenchMap, StdBenchMap,
};
use std::{collections::hash_map::RandomState, hash::BuildHasher, rc::Rc};

#[test]
fn btree_map() {
    assert_create_map_populates_existing_keys::<BTreeMapBenchMap<u64, u64>>();
    assert_iterate::<BTreeMapBenchMap<u64, u64>>();
    assert_mut_insert_remove::<BTreeMapBenchMap<u64, u64>>();
    assert_clear::<BTreeMapBenchMap<u64, u64>>();
}

#[test]
fn hashbrown() {
    assert_create_map_populates_existing_keys::<HashbrownBenchMap<u64, u64>>();
    assert_iterate::<HashbrownBenchMap<u64, u64>>();
    assert_mut_insert_remove::<HashbrownBenchMap<u64, u64>>();
    assert_clear::<HashbrownBenchMap<u64, u64>>();
}

#[test]
fn immutable_chunkmap() {
    assert_create_map_populates_existing_keys::<ImmutableChunkMapBenchMap<u64, u64>>();
    assert_iterate::<ImmutableChunkMapBenchMap<u64, u64>>();
    assert_mut_insert_remove::<ImmutableChunkMapBenchMap<u64, u64>>();
}

#[test]
fn imbl() {
    assert_create_map_populates_existing_keys::<ImblBenchMap<u64, u64>>();
    assert_iterate::<ImblBenchMap<u64, u64>>();
    assert_mut_insert_remove::<ImblBenchMap<u64, u64>>();
    assert_clear::<ImblBenchMap<u64, u64>>();
}

#[test]
fn indexmap() {
    assert_create_map_populates_existing_keys::<IndexMapBenchMap<u64, u64>>();
    assert_iterate::<IndexMapBenchMap<u64, u64>>();
    assert_mut_insert_remove::<IndexMapBenchMap<u64, u64>>();
    assert_clear::<IndexMapBenchMap<u64, u64>>();
}

#[test]
fn rustc_hash() {
    assert_create_map_populates_existing_keys::<RustCHashBenchMap<u64, u64>>();
    assert_iterate::<RustCHashBenchMap<u64, u64>>();
    assert_mut_insert_remove::<RustCHashBenchMap<u64, u64>>();
    assert_clear::<RustCHashBenchMap<u64, u64>>();
}

#[test]
fn intmap_adapter() {
    assert_create_map_populates_existing_keys::<IntMapBenchMap<u64, u64>>();
    assert_iterate::<IntMapBenchMap<u64, u64>>();
    assert_mut_insert_remove::<IntMapBenchMap<u64, u64>>();
    assert_clear::<IntMapBenchMap<u64, u64>>();
    assert_get_or_insert::<IntMapBenchMap<u64, u64>>();
    assert_clone_keeps_entries::<IntMapBenchMap<u64, u64>>();
    assert_eq!(<IntMapBenchMap<u64, u64> as BenchMapName>::NAME, "intmap");
}

#[test]
fn rpds_adapter() {
    assert_create_map_populates_existing_keys::<RpdsHashTrieMapBenchMap<u64, u64>>();
    assert_iterate::<RpdsHashTrieMapBenchMap<u64, u64>>();
    assert_mut_insert_remove::<RpdsHashTrieMapBenchMap<u64, u64>>();
    assert_clear::<RpdsHashTrieMapBenchMap<u64, u64>>();
    assert_clone_keeps_entries::<RpdsHashTrieMapBenchMap<u64, u64>>();
    assert_new_with_hasher::<RpdsHashTrieMapBenchMap<u64, u64, RandomState>, _>(RandomState::new());
}

#[test]
fn persistent_maps_get_or_insert_and_clone() {
    assert_get_or_insert::<ImblBenchMap<u64, u64>>();
    assert_get_or_insert::<ImmutableChunkMapBenchMap<u64, u64>>();
    assert_get_or_insert::<BTreeMapBenchMap<u64, u64>>();
    assert_get_or_insert::<StdBenchMap<u64, u64>>();
    assert_clone_keeps_entries::<ImblBenchMap<u64, u64>>();
    assert_clone_keeps_entries::<ImmutableChunkMapBenchMap<u64, u64>>();
    assert_new_with_hasher::<ImblBenchMap<u64, u64, RandomState>, _>(RandomState::new());
    assert_eq!(<ImblBenchMap<u64, u64> as BenchMapName>::NAME, "imbl");
}

#[test]
fn std_hash_map() {
    assert_create_map_populates_existing_keys::<StdBenchMap<u64, u64>>();
    assert_iterate::<StdBenchMap<u64, u64>>();
    assert_mut_insert_remove::<StdBenchMap<u64, u64>>();
    assert_clear::<StdBenchMap<u64, u64>>();
}

fn assert_create_map_populates_existing_keys<M>()
where
    M: BenchMapNew<u64, u64> + BenchMapMutInsert<u64, u64> + BenchMapGetCloned<u64, u64>,
{
    let map_data = Rc::new(MapGen::generate(
        U64SparseDataGen,
        U64SparseDataGen,
        100_000,
        100,
        0,
        false,
    ));
    let map = map_data.create_map::<M>();
    let found = map_data
        .existing_keys()
        .iter()
        .filter(|k| map.get_cloned(k).is_some())
        .count();
    assert_eq!(found, 100);
}

fn assert_iterate<M>()
where
    M: BenchMapNew<u64, u64> + BenchMapMutInsert<u64, u64> + BenchMapIter<u64, u64>,
{
    let mut map = M::new();
    map.insert(1, 10);
    map.insert(2, 20);

    let mut count = 0;
    map.for_each(|_key, _value| {
        count += 1;
    });
    assert_eq!(count, 2);
}

fn assert_mut_insert_remove<M>()
where
    M: BenchMapNew<u64, u64>
        + BenchMapMutInsert<u64, u64>
        + BenchMapMutRemove<u64, u64>
        + BenchMapGetCloned<u64, u64>,
{
    let mut map = M::new();
    map.insert(1, 10);
    map.insert(2, 20);
    assert_eq!(map.get_cloned(&1), Some(10));
    assert_eq!(map.get_cloned(&2), Some(20));

    assert_eq!(map.remove(&1), Some(10));
    assert_eq!(map.get_cloned(&1), None);
    assert_eq!(map.get_cloned(&2), Some(20));

    assert_eq!(map.remove(&999), None);
    assert_eq!(map.get_cloned(&2), Some(20));
}

#[test]
fn std_with_hasher() {
    assert_new_with_hasher::<StdBenchMap<u64, u64, ahash::RandomState>, _>(
        ahash::RandomState::new(),
    );
    assert_new_with_hasher::<StdBenchMap<u64, u64, RandomState>, _>(RandomState::new());
}

#[test]
fn create_map_with_hasher_populates_existing_keys() {
    let map_data = Rc::new(MapGen::generate(
        U64SparseDataGen,
        U64SparseDataGen,
        100_000,
        100,
        0,
        false,
    ));

    let map = map_data.create_map_with_hasher::<StdBenchMap<u64, u64, ahash::RandomState>, _>(
        ahash::RandomState::new(),
    );
    let found = map_data
        .existing_keys()
        .iter()
        .filter(|k| map.get_cloned(k).is_some())
        .count();
    assert_eq!(found, 100);
}

fn assert_new_with_hasher<M, H>(hasher: H)
where
    M: BenchMapNewWithHasher<u64, u64, H>
        + BenchMapMutInsert<u64, u64>
        + BenchMapMutRemove<u64, u64>
        + BenchMapGetCloned<u64, u64>,
    H: BuildHasher,
{
    let mut map = M::new_with_hasher(hasher);
    map.insert(1, 10);
    map.insert(2, 20);
    assert_eq!(map.get_cloned(&1), Some(10));
    assert_eq!(map.get_cloned(&2), Some(20));

    assert_eq!(map.remove(&1), Some(10));
    assert_eq!(map.get_cloned(&1), None);
    assert_eq!(map.get_cloned(&2), Some(20));

    assert_eq!(map.remove(&999), None);
    assert_eq!(map.get_cloned(&2), Some(20));
}

fn assert_clear<M>()
where
    M: BenchMapNew<u64, u64>
        + BenchMapMutInsert<u64, u64>
        + BenchMapMutClear<u64, u64>
        + BenchMapGetCloned<u64, u64>,
{
    let mut map = M::new();
    map.insert(1, 10);
    map.insert(2, 20);
    assert_eq!(map.get_cloned(&1), Some(10));
    assert_eq!(map.get_cloned(&2), Some(20));

    map.clear();
    assert_eq!(map.get_cloned(&1), None);
    assert_eq!(map.get_cloned(&2), None);
}

fn assert_get_or_insert<M>()
where
    M: BenchMapNew<u64, u64> + BenchMapMutGetOrInsert<u64, u64> + BenchMapGetCloned<u64, u64>,
{
    let mut map = M::new();
    assert_eq!(map.get_or_insert(7, 70), 70);
    assert_eq!(map.get_or_insert(7, 71), 70);
    assert_eq!(map.get_cloned(&7), Some(70));
    assert_eq!(map.get_cloned(&8), None);
}

fn assert_clone_keeps_entries<M>()
where
    M: BenchMapNew<u64, u64>
        + BenchMapMutInsert<u64, u64>
        + BenchMapClone<u64, u64>
        + BenchMapGetCloned<u64, u64>,
{
    let mut map = M::new();
    map.insert(1, 10);
    let mut copy = map.clone_map();
    assert_eq!(copy.get_cloned(&1), Some(10));
    copy.insert(2, 20);
    assert_eq!(copy.get_cloned(&2), Some(20));
    assert_eq!(map.get_cloned(&2), None);
}
