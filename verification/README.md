# bench_map

Building blocks for benchmarking map implementations, with their behaviour
stated as Verus contracts and proved.

- `src/` is the verified library:
  - `data/`: key and value generators (sparse and dense `u64` keys, random
    alphanumeric strings, byte arrays, version 4 UUIDs), each proved to hand
    out items outside a set to avoid, distinct from each other for all but
    the byte arrays (independent draws, which may repeat); repeated keys with
    a given number of drawn ones; the base-`b` enumeration that lets a
    generator always find a free item.
  - `map_gen.rs`, `map_data.rs`: the entries, present keys and missing keys of
    a benchmark map, and creating a map from them (every present key is found,
    no missing key is).
  - `maps/`: the `BenchMap*` traits, stated over the entries a map holds, and
    their adapters for `std` and `hashbrown`, `indexmap`, `intmap`,
    `rustc-hash`, `imbl`, `immutable-chunkmap` and `rpds` maps.
  - `workload.rs`, `workload/`: workload designs with their exact operation
    shares, the workloads drawn from them, and running one against a map.
  - `worker_pool.rs`: every decision of the pinned worker pool that runs the
    threaded workloads.
  - `number_formatter.rs`: fixed-width counts with `_` separators.
- `tests/` runs the library.
- `app/` holds what Verus does not: threads and pinning, wall-clock
  formatting, the floating-point Zipfian sampler, the adapters of the
  concurrent maps and the benchmark configuration.
