use bench_map::data::byte_array::ByteArrayDataGen;
use bench_map::data::data_gen::DataGen;
use bench_map::data::string::StringDataGen;
use bench_map::data::u64_dense::U64DenseDataGen;
use bench_map::data::u64_sparse::U64SparseDataGen;
use bench_map::data::uuid_v4::{UuidV4DataGen, UUID_FORMAT_MASK, UUID_V4_BITS};
use bench_map::key_set::{first_absent, key_set_from};
use bench_map::map_data::MapData;
use bench_map::map_gen::MapGen;
use bench_map::maps::{BenchMapGetCloned, BTreeMapBenchMap};
use std::collections::HashSet;

fn distinct<T: std::hash::Hash + Eq + Clone>(v: &[T]) -> bool {
    v.iter().cloned().collect::<HashSet<T>>().len() == v.len()
}

#[test]
fn sparse_keys_are_distinct_and_avoid() {
    let keys = U64SparseDataGen.generate(1000);
    assert_eq!(keys.len(), 1000);
    assert!(distinct(&keys));
    let more = U64SparseDataGen.generate_avoiding(500, &keys);
    assert_eq!(more.len(), 500);
    assert!(distinct(&more));
    assert!(more.iter().all(|k| !keys.contains(k)));
    assert!(U64SparseDataGen.generate(0).is_empty());
}

#[test]
fn dense_keys_are_a_run() {
    let keys = U64DenseDataGen.generate(100);
    assert_eq!(keys.len(), 100);
    for (i, k) in keys.iter().enumerate() {
        assert_eq!(*k, keys[0] + i as u64);
    }
    assert!(keys[0] < u64::MAX - 100);
    assert!(U64DenseDataGen.generate(0).is_empty());
}

#[test]
fn string_keys_are_alphanumeric_and_distinct() {
    let words = StringDataGen::<8>.generate(300);
    assert_eq!(words.len(), 300);
    assert!(distinct(&words));
    for w in &words {
        assert_eq!(w.len(), 8);
        assert!(w.chars().all(|c| c.is_ascii_alphanumeric()));
    }
    let more = StringDataGen::<8>.generate_avoiding(50, &words);
    assert!(more.iter().all(|w| !words.contains(w)));
}

#[test]
fn string_keys_fill_a_tiny_space() {
    // Every one-character word, then none left to avoid.
    let all = StringDataGen::<1>.generate(62);
    assert!(distinct(&all));
    let mut chars: Vec<char> = all.iter().map(|w| w.chars().next().unwrap()).collect();
    chars.sort();
    let expected: Vec<char> = ('0'..='9').chain('A'..='Z').chain('a'..='z').collect();
    assert_eq!(chars, expected);
    let empty = StringDataGen::<0>.generate(1);
    assert_eq!(empty, vec![String::new()]);
}

#[test]
fn byte_arrays_avoid_and_may_repeat() {
    let arrays = ByteArrayDataGen::<16>.generate(200);
    assert_eq!(arrays.len(), 200);
    let more = ByteArrayDataGen::<16>.generate_avoiding(20, &arrays);
    assert_eq!(more.len(), 20);
    assert!(more.iter().all(|a| !arrays.contains(a)));
    // More one-byte arrays than there are: some repeat.
    let many = ByteArrayDataGen::<1>.generate(300);
    assert_eq!(many.len(), 300);
    assert!(!distinct(&many));
    // The one array of no bytes, twice.
    let empty = ByteArrayDataGen::<0>.generate(2);
    assert_eq!(empty, vec![[0u8; 0], [0u8; 0]]);
}

#[test]
fn uuids_are_version_4_and_distinct() {
    let ids = UuidV4DataGen.generate(500);
    assert_eq!(ids.len(), 500);
    assert!(distinct(&ids));
    for id in &ids {
        assert_eq!(id & UUID_FORMAT_MASK, UUID_V4_BITS);
        let parsed = uuid::Uuid::from_u128(*id);
        assert_eq!(parsed.get_version_num(), 4);
    }
    let more = UuidV4DataGen.generate_avoiding(10, &ids);
    assert!(more.iter().all(|u| !ids.contains(u)));
}

#[test]
fn generate_with_repeats_counts() {
    let sorted = U64SparseDataGen.generate_with_repeats(100, 10, true);
    assert_eq!(sorted.len(), 100);
    assert!(sorted.windows(2).all(|w| w[0] <= w[1]));
    assert_eq!(sorted.iter().collect::<HashSet<_>>().len(), 10);

    let shuffled = U64SparseDataGen.generate_with_repeats(50, 1, false);
    assert_eq!(shuffled.len(), 50);
    assert!(shuffled.iter().all(|k| *k == shuffled[0]));

    let all_unique = U64SparseDataGen.generate_with_repeats(20, 20, true);
    assert!(distinct(&all_unique));
    assert!(U64SparseDataGen.generate_with_repeats(0, 0, false).is_empty());
}

#[test]
fn map_gen_builds_consistent_data() {
    let data = MapGen::generate(U64SparseDataGen, U64SparseDataGen, 1000, 100, 50, false);
    assert_eq!(data.existing_keys().len(), 100);
    assert_eq!(data.missing_keys().len(), 50);
    let map = data.create_map::<BTreeMapBenchMap<u64, u64>>();
    assert!(data.existing_keys().iter().all(|k| map.get_cloned(k).is_some()));
    assert!(data.missing_keys().iter().all(|k| map.get_cloned(k).is_none()));
}

#[test]
fn map_gen_sorts_keys() {
    let data = MapGen::generate(U64SparseDataGen, U64DenseDataGen, 200, 200, 30, true);
    let existing = data.existing_keys();
    assert_eq!(existing.len(), 200);
    assert!(existing.windows(2).all(|w| w[0] < w[1]));
    assert!(data.missing_keys().windows(2).all(|w| w[0] < w[1]));
}

#[test]
fn key_set_first_absent() {
    assert_eq!(first_absent(&key_set_from(&[0, 1])), 2);
    assert_eq!(first_absent(&key_set_from(&[1, 3, 0, 2, 5])), 4);
    assert_eq!(first_absent(&key_set_from(&[])), 0);
    assert_eq!(first_absent(&key_set_from(&[7, 7, 0, 0])), 1);
}

#[test]
fn map_data_from_generators_repeats_keys() {
    let data = MapData::from_generators(U64SparseDataGen, U64SparseDataGen, 100, 10, true);
    let existing = data.existing_keys();
    assert_eq!(existing.len(), 100);
    assert!(existing.windows(2).all(|w| w[0] <= w[1]));
    assert_eq!(existing.iter().collect::<HashSet<_>>().len(), 10);
    let missing = data.missing_keys();
    assert_eq!(missing.len(), 100);
    assert!(distinct(missing));
    assert!(missing.iter().all(|k| !existing.contains(k)));
    let map = data.create_map::<BTreeMapBenchMap<u64, u64>>();
    assert!(existing.iter().all(|k| map.get_cloned(k).is_some()));
    assert!(missing.iter().all(|k| map.get_cloned(k).is_none()));

    let all_unique = MapData::from_generators(U64SparseDataGen, U64DenseDataGen, 50, 50, false);
    assert!(distinct(all_unique.existing_keys()));
    let empty = MapData::<u64, u64>::from_generators(U64SparseDataGen, U64SparseDataGen, 0, 0, false);
    assert!(empty.existing_keys().is_empty() && empty.missing_keys().is_empty());
}

#[test]
fn string_keys_count_only_drawable_strings_to_avoid() {
    let none = StringDataGen::<0>.generate_avoiding(0, &[String::new(), String::new()]);
    assert!(none.is_empty());
    let avoid = vec!["aa".to_string(), "bb".to_string(), "cc".to_string()];
    let words = StringDataGen::<1>.generate_avoiding(60, &avoid);
    assert_eq!(words.len(), 60);
    assert!(distinct(&words));
    // All but two of the one-character words, avoiding two of them.
    let avoid = vec!["a".to_string(), "a".to_string(), "Z".to_string()];
    let words = StringDataGen::<1>.generate_avoiding(60, &avoid);
    assert!(distinct(&words));
    assert!(words.iter().all(|w| w != "a" && w != "Z"));
}

#[test]
fn byte_arrays_count_distinct_arrays_to_avoid() {
    let arrays = ByteArrayDataGen::<1>.generate_avoiding(255, &[[0u8], [0u8]]);
    assert_eq!(arrays.len(), 255);
    assert!(arrays.iter().all(|a| a[0] != 0));
    // Every array but one avoided: only that one comes out.
    let avoid: Vec<[u8; 1]> = (1..=255u8).map(|b| [b]).collect();
    let arrays = ByteArrayDataGen::<1>.generate_avoiding(3, &avoid);
    assert_eq!(arrays, vec![[0u8], [0u8], [0u8]]);
}

#[test]
fn sparse_keys_stay_below_max() {
    let keys = U64SparseDataGen.generate_avoiding(100, &[u64::MAX, u64::MAX, 3]);
    assert_eq!(keys.len(), 100);
    assert!(keys.iter().all(|k| *k < u64::MAX && *k != 3));
}

#[test]
fn dense_keys_avoid_keys() {
    let avoid: Vec<u64> = (0..50).map(|i| i * 1000).collect();
    let keys = U64DenseDataGen.generate_avoiding(100, &avoid);
    assert_eq!(keys.len(), 100);
    for (i, k) in keys.iter().enumerate() {
        assert_eq!(*k, keys[0] + i as u64);
        assert!(!avoid.contains(k));
    }
    assert!(keys[0] + 100 < u64::MAX);
}

#[test]
fn dense_keys_serve_as_map_keys() {
    let data = MapGen::generate(U64DenseDataGen, U64SparseDataGen, 500, 100, 50, false);
    let map = data.create_map::<BTreeMapBenchMap<u64, u64>>();
    assert!(data.existing_keys().iter().all(|k| map.get_cloned(k).is_some()));
    assert!(data.missing_keys().iter().all(|k| map.get_cloned(k).is_none()));

    let data = MapData::from_generators(U64DenseDataGen, U64SparseDataGen, 100, 100, false);
    let map = data.create_map::<BTreeMapBenchMap<u64, u64>>();
    assert_eq!(data.missing_keys().len(), 100);
    assert!(data.missing_keys().iter().all(|k| map.get_cloned(k).is_none()));
    assert!(data.missing_keys().iter().all(|k| !data.existing_keys().contains(k)));
}
