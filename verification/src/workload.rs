//! Pre-generated operation sequences for the concurrent benchmarks.

pub mod design;
pub mod item;
pub mod op;
pub mod thread_workload;

use vstd::prelude::*;
use crate::maps::sync_benchmap::SyncBenchMap;
use crate::hint::black_box;
use crate::random::{seeded_index_picks, seeded_picks, std_rng_index};
use rand::rngs::StdRng;
use vstd::std_specs::convert::FromSpec;

verus! {

/// `pct` percent of `total`, rounded down.
pub open spec fn percent_of(total: nat, pct: nat) -> nat {
    total * pct / 100
}

/// Computes `percent_of(total, pct)` without overflowing.
pub(crate) fn percent(total: usize, pct: usize) -> (r: usize)
    requires
        pct <= 100,
    ensures
        r == percent_of(total as nat, pct as nat),
        r <= total,
{
    let q = total / 100;
    let rem = total % 100;
    proof {
        let t = total as int;
        let p = pct as int;
        assert(t == 100 * (q as int) + (rem as int));
        assert(t * p == 100 * ((q as int) * p) + (rem as int) * p) by (nonlinear_arith)
            requires
                t == 100 * (q as int) + (rem as int),
        ;
        assert((rem as int) * p <= 99 * 100) by (nonlinear_arith)
            requires
                0 <= rem < 100,
                0 <= p <= 100,
        ;
        assert((100 * ((q as int) * p) + (rem as int) * p) / 100 == (q as int) * p + ((rem as int) * p)
            / 100) by (nonlinear_arith)
            requires
                (rem as int) * p >= 0,
        ;
        assert((q as int) * p <= (q as int) * 100) by (nonlinear_arith)
            requires
                0 <= p <= 100,
                q >= 0,
        ;
        assert(t * p <= t * 100) by (nonlinear_arith)
            requires
                0 <= p <= 100,
                t >= 0,
        ;
    }
    q * pct + (rem * pct) / 100
}

/// Operation types for workloads.
#[derive(Clone, Copy, Debug, PartialEq, Eq)]
pub enum Op {
    LookupHit,
    LookupMiss,
    Insert,
    Update,
    Remove,
}

/// A workload design specifies the exact number of each operation type
/// to include in a generated workload.
///
/// This allows benchmarks to precisely control the composition of operations
/// for reproducibility and cross-map comparability.
#[derive(Clone, Copy, Debug)]
pub struct WorkloadDesign {
    pub lookup_hits: usize,
    pub lookup_misses: usize,
    pub inserts: usize,
    pub updates: usize,
    pub removes: usize,
}

impl WorkloadDesign {
    /// The number of operations of the design, as a mathematical integer.
    pub open spec fn total(&self) -> nat {
        (self.lookup_hits + self.lookup_misses + self.inserts + self.updates + self.removes) as nat
    }

    /// The operation at position `i` of a workload generated from this design:
    /// lookup hits first, then lookup misses, inserts, updates and removes.
    pub open spec fn op_at(&self, i: int) -> Op {
        if i < self.lookup_hits {
            Op::LookupHit
        } else if i < self.lookup_hits + self.lookup_misses {
            Op::LookupMiss
        } else if i < self.lookup_hits + self.lookup_misses + self.inserts {
            Op::Insert
        } else if i < self.lookup_hits + self.lookup_misses + self.inserts + self.updates {
            Op::Update
        } else {
            Op::Remove
        }
    }

    /// Total number of operations in this design.
    pub fn total_ops(&self) -> (r: usize)
        requires
            self.total() <= usize::MAX,
        ensures
            r == self.total(),
    {
        self.lookup_hits + self.lookup_misses + self.inserts + self.updates + self.removes
    }

    /// A balanced workload: 80% lookup hit, 5% insert, 10% update, 5% remove,
    /// each share rounded down.
    pub fn balanced(total_ops: usize) -> (r: Self)
        ensures
            r.lookup_hits == percent_of(total_ops as nat, 80),
            r.lookup_misses == 0,
            r.inserts == percent_of(total_ops as nat, 5),
            r.updates == percent_of(total_ops as nat, 10),
            r.removes == percent_of(total_ops as nat, 5),
            r.total() <= total_ops,
            total_ops < r.total() + 5,
    {
        let r = Self {
            lookup_hits: percent(total_ops, 80),
            lookup_misses: 0,
            inserts: percent(total_ops, 5),
            updates: percent(total_ops, 10),
            removes: percent(total_ops, 5),
        };
        proof {
            lemma_percent_shares(total_ops as nat, 80, 0, 5, 10, 5);
        }
        r
    }
}

/// Rounding each of five shares that add up to 100% down loses less than
/// one operation per share.
pub proof fn lemma_percent_shares(total: nat, a: nat, b: nat, c: nat, d: nat, e: nat)
    requires
        a + b + c + d + e == 100,
    ensures
        percent_of(total, a) + percent_of(total, b) + percent_of(total, c) + percent_of(total, d)
            + percent_of(total, e) <= total,
        total < percent_of(total, a) + percent_of(total, b) + percent_of(total, c) + percent_of(
            total,
            d,
        ) + percent_of(total, e) + 5,
{
    let t = total as int;
    assert(t * a + t * b + t * c + t * d + t * e == t * 100) by (nonlinear_arith)
        requires
            a + b + c + d + e == 100,
    ;
    lemma_floor_bounds(t * a);
    lemma_floor_bounds(t * b);
    lemma_floor_bounds(t * c);
    lemma_floor_bounds(t * d);
    lemma_floor_bounds(t * e);
    assert(t * a >= 0 && t * b >= 0 && t * c >= 0 && t * d >= 0 && t * e >= 0) by (nonlinear_arith)
        requires
            t >= 0,
    ;
}

proof fn lemma_floor_bounds(x: int)
    requires
        x >= 0,
    ensures
        100 * (x / 100) <= x < 100 * (x / 100) + 100,
{
}

/// A single operation with its associated key.
#[derive(Clone, Copy, Debug)]
pub struct WorkItem {
    pub op: Op,
    pub key: u64,
}

/// A pre-generated workload for a single thread.
#[derive(Clone)]
pub struct ThreadWorkload {
    pub items: Vec<WorkItem>,
}

/// Whether an operation targets a key that is present in the map
/// (lookup hits, updates and removes) rather than a missing one.
pub open spec fn targets_existing(op: Op) -> bool {
    op == Op::LookupHit || op == Op::Update || op == Op::Remove
}

/// The key pool that the item at position `i` draws from.
pub open spec fn pool_at(design: WorkloadDesign, existing: Seq<u64>, missing: Seq<u64>, i: int) -> Seq<
    u64,
> {
    if targets_existing(design.op_at(i)) {
        existing
    } else {
        missing
    }
}

/// Whether `picks` holds, for every position of the design, an index into
/// that position's key pool.
pub open spec fn valid_picks(
    design: WorkloadDesign,
    existing: Seq<u64>,
    missing: Seq<u64>,
    picks: Seq<usize>,
) -> bool {
    &&& picks.len() == design.total()
    &&& forall|i: int|
        0 <= i < picks.len() ==> (#[trigger] picks[i]) < pool_at(design, existing, missing, i).len()
}

/// The workload built from `design` whose `i`-th key is
/// `pool_at(i)[picks[i]]`.
pub open spec fn planned_items(
    design: WorkloadDesign,
    existing: Seq<u64>,
    missing: Seq<u64>,
    picks: Seq<usize>,
) -> Seq<WorkItem> {
    Seq::new(
        design.total(),
        |i: int|
            WorkItem {
                op: design.op_at(i),
                key: pool_at(design, existing, missing, i)[picks[i] as int],
            },
    )
}

/// Whether `items` is the workload of `design` for some valid picks.
pub open spec fn drawn_from(
    design: WorkloadDesign,
    existing: Seq<u64>,
    missing: Seq<u64>,
    items: Seq<WorkItem>,
) -> bool {
    exists|picks: Seq<usize>|
        valid_picks(design, existing, missing, picks) && items == planned_items(
            design,
            existing,
            missing,
            picks,
        )
}

/// Whether a draw can be made for every position of the design: a pool that
/// some operation draws from is not empty.
pub open spec fn pools_cover(design: WorkloadDesign, existing: Seq<u64>, missing: Seq<u64>) -> bool {
    &&& (design.lookup_hits + design.updates + design.removes > 0 ==> existing.len() > 0)
    &&& (design.lookup_misses + design.inserts > 0 ==> missing.len() > 0)
}

/// Builds the workload of `design` whose `i`-th key is the `picks[i]`-th key
/// of the pool of its operation (`existing_keys` for lookup hits, updates and
/// removes; `missing_keys` for lookup misses and inserts).
pub fn workload_from_picks(
    design: &WorkloadDesign,
    existing_keys: &[u64],
    missing_keys: &[u64],
    picks: &[usize],
) -> (r: ThreadWorkload)
    requires
        valid_picks(*design, existing_keys@, missing_keys@, picks@),
    ensures
        r.items@ == planned_items(*design, existing_keys@, missing_keys@, picks@),
{
    let total = picks.len();
    let h = design.lookup_hits;
    let hm = h + design.lookup_misses;
    let hmi = hm + design.inserts;
    let hmiu = hmi + design.updates;
    let mut items: Vec<WorkItem> = Vec::new();
    let mut i: usize = 0;
    while i < total
        invariant
            valid_picks(*design, existing_keys@, missing_keys@, picks@),
            total == picks@.len(),
            h == design.lookup_hits,
            hm == h + design.lookup_misses,
            hmi == hm + design.inserts,
            hmiu == hmi + design.updates,
            i <= total,
            items@ =~= planned_items(*design, existing_keys@, missing_keys@, picks@).subrange(
                0,
                i as int,
            ),
        decreases total - i,
    {
        let op = if i < h {
            Op::LookupHit
        } else if i < hm {
            Op::LookupMiss
        } else if i < hmi {
            Op::Insert
        } else if i < hmiu {
            Op::Update
        } else {
            Op::Remove
        };
        assert(op == design.op_at(i as int));
        assert(picks@[i as int] < pool_at(*design, existing_keys@, missing_keys@, i as int).len());
        let key = match op {
            Op::LookupMiss | Op::Insert => missing_keys[picks[i]],
            _ => existing_keys[picks[i]],
        };
        items.push(WorkItem { op, key });
        i = i + 1;
    }
    ThreadWorkload { items }
}

/// Generate a workload for a single thread from a design.
///
/// `existing_keys` are used for lookup hits, updates, and removes.
/// `missing_keys` are used for lookup misses and inserts.
/// Keys are drawn uniformly, one per operation, in workload order.
pub fn generate_workload(
    design: &WorkloadDesign,
    existing_keys: &[u64],
    missing_keys: &[u64],
    rng: &mut StdRng,
) -> (r: ThreadWorkload)
    requires
        design.total() <= usize::MAX,
        pools_cover(*design, existing_keys@, missing_keys@),
    ensures
        drawn_from(*design, existing_keys@, missing_keys@, r.items@),
{
    let total = design.total_ops();
    let mut picks: Vec<usize> = Vec::new();
    let mut i: usize = 0;
    while i < total
        invariant
            total == design.total(),
            pools_cover(*design, existing_keys@, missing_keys@),
            i <= total,
            picks@.len() == i,
            forall|j: int|
                0 <= j < i ==> (#[trigger] picks@[j]) < pool_at(
                    *design,
                    existing_keys@,
                    missing_keys@,
                    j,
                ).len(),
        decreases total - i,
    {
        let from_existing = i < design.lookup_hits || (i >= design.lookup_hits + design.lookup_misses
            + design.inserts);
        assert(from_existing == targets_existing(design.op_at(i as int)));
        let len = if from_existing {
            existing_keys.len()
        } else {
            missing_keys.len()
        };
        let pick = std_rng_index(rng, len);
        picks.push(pick);
        i = i + 1;
    }
    let r = workload_from_picks(design, existing_keys, missing_keys, picks.as_slice());
    assert(valid_picks(*design, existing_keys@, missing_keys@, picks@));
    r
}

/// The length of the key pool of each position of `design`.
pub open spec fn pool_lens(design: WorkloadDesign, existing: Seq<u64>, missing: Seq<u64>) -> Seq<
    usize,
> {
    Seq::new(design.total(), |i: int| pool_at(design, existing, missing, i).len() as usize)
}

/// The workload that thread `t` of `generate_workloads` runs: the design's
/// workload for the picks of a generator seeded with `42 + t`.
pub open spec fn seeded_workload(
    design: WorkloadDesign,
    existing: Seq<u64>,
    missing: Seq<u64>,
    t: int,
) -> Seq<WorkItem> {
    planned_items(
        design,
        existing,
        missing,
        seeded_picks((42 + t) as u64, pool_lens(design, existing, missing)),
    )
}

/// The length of the key pool of each position of `design`.
fn pool_lengths(design: &WorkloadDesign, existing_keys: &[u64], missing_keys: &[u64]) -> (r: Vec<
    usize,
>)
    requires
        design.total() <= usize::MAX,
    ensures
        r@ == pool_lens(*design, existing_keys@, missing_keys@),
{
    let total = design.total_ops();
    let h = design.lookup_hits;
    let hmi = h + design.lookup_misses + design.inserts;
    let mut lens: Vec<usize> = Vec::new();
    let mut i: usize = 0;
    while i < total
        invariant
            total == design.total(),
            h == design.lookup_hits,
            hmi == design.lookup_hits + design.lookup_misses + design.inserts,
            i <= total,
            lens@ =~= pool_lens(*design, existing_keys@, missing_keys@).subrange(0, i as int),
        decreases total - i,
    {
        let from_existing = !(h <= i && i < hmi);
        assert(from_existing == targets_existing(design.op_at(i as int)));
        let len = if from_existing {
            existing_keys.len()
        } else {
            missing_keys.len()
        };
        lens.push(len);
        i = i + 1;
    }
    lens
}

/// Generate workloads for all threads using the same design; thread `i` draws
/// its keys from a generator seeded with `42 + i`, one draw per operation in
/// workload order, so equal arguments give equal workloads.
pub fn generate_workloads(
    design: &WorkloadDesign,
    existing_keys: &[u64],
    missing_keys: &[u64],
    thread_count: usize,
) -> (r: Vec<ThreadWorkload>)
    requires
        design.total() <= usize::MAX,
        pools_cover(*design, existing_keys@, missing_keys@),
        thread_count as int + 42 <= u64::MAX,
    ensures
        r.len() == thread_count,
        forall|t: int|
            0 <= t < r.len() ==> (#[trigger] r[t]).items@ == seeded_workload(
                *design,
                existing_keys@,
                missing_keys@,
                t,
            ),
        forall|t: int|
            0 <= t < r.len() ==> drawn_from(*design, existing_keys@, missing_keys@, (#[trigger] r[t]).items@),
{
    let lens = pool_lengths(design, existing_keys, missing_keys);
    let existing_len = existing_keys.len();
    let missing_len = missing_keys.len();
    proof {
        assert forall|i: int| 0 <= i < lens@.len() implies lens@[i] > 0 by {
            let pool = pool_at(*design, existing_keys@, missing_keys@, i);
            assert(pool.len() <= usize::MAX);
            assert(lens@[i] == pool.len());
            assert(pool.len() > 0);
        }
    }
    let mut workloads: Vec<ThreadWorkload> = Vec::new();
    let mut i: usize = 0;
    while i < thread_count
        invariant
            design.total() <= usize::MAX,
            lens@ == pool_lens(*design, existing_keys@, missing_keys@),
            forall|j: int| 0 <= j < lens@.len() ==> lens@[j] > 0,
            thread_count as int + 42 <= u64::MAX,
            i <= thread_count,
            workloads.len() == i,
            forall|t: int|
                0 <= t < i ==> (#[trigger] workloads@[t]).items@ == seeded_workload(
                    *design,
                    existing_keys@,
                    missing_keys@,
                    t,
                ),
            forall|t: int|
                0 <= t < i ==> drawn_from(*design, existing_keys@, missing_keys@, (#[trigger] workloads@[t]).items@),
        decreases thread_count - i,
    {
        let picks = seeded_index_picks(42 + i as u64, lens.as_slice());
        proof {
            assert forall|j: int| 0 <= j < picks@.len() implies (#[trigger] picks@[j]) < pool_at(
                *design,
                existing_keys@,
                missing_keys@,
                j,
            ).len() by {
                assert(picks@[j] < lens@[j]);
            }
        }
        let w = workload_from_picks(design, existing_keys, missing_keys, picks.as_slice());
        assert(valid_picks(*design, existing_keys@, missing_keys@, picks@));
        workloads.push(w);
        i = i + 1;
    }
    workloads
}

/// A call that running a work item makes on a map.
#[derive(Clone, Copy, Debug, PartialEq, Eq)]
pub enum MapCall {
    /// Look up the key.
    Get(u64),
    /// Store the value under the key.
    Insert(u64, u64),
    /// Remove the key.
    Remove(u64),
}

/// The call for a work item: lookups (hits and misses) read the key, inserts
/// write the value 42, updates write the value 99, removes delete the key.
pub open spec fn call_for(item: WorkItem) -> MapCall {
    match item.op {
        Op::LookupHit => MapCall::Get(item.key),
        Op::LookupMiss => MapCall::Get(item.key),
        Op::Insert => MapCall::Insert(item.key, 42),
        Op::Update => MapCall::Insert(item.key, 99),
        Op::Remove => MapCall::Remove(item.key),
    }
}

/// The call that running `item` makes.
pub fn planned_call(item: WorkItem) -> (r: MapCall)
    ensures
        r == call_for(item),
{
    match item.op {
        Op::LookupHit => MapCall::Get(item.key),
        Op::LookupMiss => MapCall::Get(item.key),
        Op::Insert => MapCall::Insert(item.key, 42),
        Op::Update => MapCall::Insert(item.key, 99),
        Op::Remove => MapCall::Remove(item.key),
    }
}

/// Whether `k` is what `K::from` makes of `x`, as far as the conversion
/// follows its stated behaviour.
pub open spec fn converted<K: From<u64>>(k: K, x: u64) -> bool {
    <K as FromSpec<u64>>::obeys_from_spec() ==> k == <K as FromSpec<u64>>::from_spec(x)
}

/// Whether `map` has been handed the call `c`, with its key and value
/// converted into the map's types.
pub open spec fn received_call<M, K, V>(map: M, c: MapCall) -> bool where
    M: SyncBenchMap<K, V>,
    K: From<u64>,
    V: From<u64>,
 {
    match c {
        MapCall::Get(key) => exists|k: K| #[trigger] map.received_get(k) && converted(k, key),
        MapCall::Insert(key, value) => exists|k: K, v: V|
            #[trigger] map.received_insert(k, v) && converted(k, key) && converted(v, value),
        MapCall::Remove(key) => exists|k: K| #[trigger] map.received_remove(k) && converted(k, key),
    }
}

/// Run a single thread's workload against a map: each item makes the call
/// `planned_call` gives for it, in workload order, with keys and values
/// converted into the map's types and hidden from the optimiser.
///
/// The map is handed every item's call. How often and in which order the
/// calls were made is not part of the statement.
pub fn run_workload<M, K, V>(map: &M, workload: &ThreadWorkload) where
    M: SyncBenchMap<K, V>,
    K: From<u64> + Copy,
    V: From<u64> + Copy,

    ensures
        forall|i: int|
            0 <= i < workload.items@.len() ==> received_call::<M, K, V>(
                *map,
                call_for(#[trigger] workload.items@[i]),
            ),
{
    let n = workload.items.len();
    let mut i: usize = 0;
    while i < n
        invariant
            i <= n == workload.items@.len(),
            forall|j: int|
                0 <= j < i ==> received_call::<M, K, V>(
                    *map,
                    call_for(#[trigger] workload.items@[j]),
                ),
        decreases n - i,
    {
        let item = workload.items[i];
        match planned_call(item) {
            MapCall::Get(key) => {
                let k = K::from(key);
                let kb = black_box(&k);
                black_box(map.get_cloned(kb));
                assert(map.received_get(k) && converted(k, key));
            },
            MapCall::Insert(key, value) => {
                let k = K::from(key);
                let v = V::from(value);
                map.insert(black_box(k), black_box(v));
                assert(map.received_insert(k, v) && converted(k, key) && converted(v, value));
            },
            MapCall::Remove(key) => {
                let k = K::from(key);
                let kb = black_box(&k);
                black_box(map.remove(kb));
                assert(map.received_remove(k) && converted(k, key));
            },
        }
        i = i + 1;
    }
}

} // verus!

verus! {

/// How many times `op` occurs in `s`.
pub open spec fn count_op(s: Seq<Op>, op: Op) -> nat
    decreases s.len(),
{
    if s.len() == 0 {
        0
    } else {
        count_op(s.drop_last(), op) + if s.last() == op {
            1nat
        } else {
            0nat
        }
    }
}

/// The operations of a sequence of work items.
pub open spec fn ops_of(items: Seq<WorkItem>) -> Seq<Op> {
    items.map_values(|w: WorkItem| w.op)
}

/// How many of the first `n` positions fall in the section that starts at
/// `lo` and holds `len` positions.
pub open spec fn overlap(lo: nat, len: nat, n: nat) -> nat {
    if n <= lo {
        0
    } else if n >= lo + len {
        len
    } else {
        (n - lo) as nat
    }
}

/// The number of operations `op` that a design asks for.
pub open spec fn design_count(design: WorkloadDesign, op: Op) -> nat {
    match op {
        Op::LookupHit => design.lookup_hits as nat,
        Op::LookupMiss => design.lookup_misses as nat,
        Op::Insert => design.inserts as nat,
        Op::Update => design.updates as nat,
        Op::Remove => design.removes as nat,
    }
}

/// The first position of the section of `op` in a design's workload.
pub open spec fn section_start(design: WorkloadDesign, op: Op) -> nat {
    match op {
        Op::LookupHit => 0,
        Op::LookupMiss => design.lookup_hits as nat,
        Op::Insert => (design.lookup_hits + design.lookup_misses) as nat,
        Op::Update => (design.lookup_hits + design.lookup_misses + design.inserts) as nat,
        Op::Remove => (design.lookup_hits + design.lookup_misses + design.inserts
            + design.updates) as nat,
    }
}

proof fn lemma_prefix_count(design: WorkloadDesign, op: Op, n: nat)
    requires
        n <= design.total(),
    ensures
        count_op(Seq::new(n, |i: int| design.op_at(i)), op) == overlap(
            section_start(design, op),
            design_count(design, op),
            n,
        ),
    decreases n,
{
    let s = Seq::new(n, |i: int| design.op_at(i));
    if n > 0 {
        lemma_prefix_count(design, op, (n - 1) as nat);
        assert(s.drop_last() =~= Seq::new((n - 1) as nat, |i: int| design.op_at(i)));
        assert(s.last() == design.op_at(n - 1));
    }
}

/// Law: a workload drawn from a design holds exactly as many operations of
/// each kind as the design asks for, and every key comes from the pool of
/// its operation: present keys for lookup hits, updates and removes, missing
/// keys for lookup misses and inserts.
pub proof fn lemma_workload_follows_design(
    design: WorkloadDesign,
    existing: Seq<u64>,
    missing: Seq<u64>,
    items: Seq<WorkItem>,
    op: Op,
)
    requires
        drawn_from(design, existing, missing, items),
    ensures
        count_op(ops_of(items), op) == design_count(design, op),
        forall|i: int|
            0 <= i < items.len() ==> (if targets_existing((#[trigger] items[i]).op) {
                existing.contains(items[i].key)
            } else {
                missing.contains(items[i].key)
            }),
{
    let picks = choose|picks: Seq<usize>|
        valid_picks(design, existing, missing, picks) && items == planned_items(
            design,
            existing,
            missing,
            picks,
        );
    lemma_prefix_count(design, op, design.total());
    assert(ops_of(items) =~= Seq::new(design.total(), |i: int| design.op_at(i)));
    assert forall|i: int| 0 <= i < items.len() implies (if targets_existing(
        (#[trigger] items[i]).op,
    ) {
        existing.contains(items[i].key)
    } else {
        missing.contains(items[i].key)
    }) by {
        let pool = pool_at(design, existing, missing, i);
        assert(picks[i] < pool.len());
        assert(items[i].key == pool[picks[i] as int]);
    }
}

} // verus!
