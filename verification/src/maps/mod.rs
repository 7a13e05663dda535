//! Map adapters with a common interface for the benchmarks.

pub mod benchmap;
pub mod btreemap_benchmap;
pub mod hashbrown_benchmap;
pub mod imbl_benchmap;
pub mod immutable_chunkmap_benchmap;
pub mod indexmap_benchmap;
pub mod intmap_benchmap;
pub mod rpds_benchmap;
pub mod rustc_hash_benchmap;
pub mod std_benchmap;
pub mod sync_benchmap;

pub use benchmap::{
    BenchMapClone, BenchMapGetCloned, BenchMapGetOrInsert, BenchMapInsert, BenchMapIter,
    BenchMapMutClear, BenchMapMutGetOrInsert, BenchMapMutInsert, BenchMapMutRemove, BenchMapName,
    BenchMapNew, BenchMapNewWithHasher, BenchMapRemove, BenchMapView,
};
pub use btreemap_benchmap::BTreeMapBenchMap;
pub use hashbrown_benchmap::HashbrownBenchMap;
pub use imbl_benchmap::ImblBenchMap;
pub use immutable_chunkmap_benchmap::ImmutableChunkMapBenchMap;
pub use indexmap_benchmap::IndexMapBenchMap;
pub use intmap_benchmap::IntMapBenchMap;
pub use rpds_benchmap::RpdsHashTrieMapBenchMap;
pub use rustc_hash_benchmap::RustCHashBenchMap;
pub use std_benchmap::StdBenchMap;
