use vstd::prelude::*;
use crate::workload::design::WorkloadDesign;
use crate::workload::item::WorkItem;
use crate::workload::op::WorkloadOp;
use crate::random::std_rng_index;
use rand::rngs::StdRng;

verus! {

/// A pre-generated workload for a single thread.
#[derive(Clone)]
pub struct ThreadWorkload {
    pub items: Vec<WorkItem<u64>>,
}

/// Which part of a design the position `i` falls in: 0 lookup hits,
/// 1 lookup misses, 2 inserts, 3 updates, 4 removes.
pub open spec fn section_at(design: WorkloadDesign, i: int) -> int {
    if i < design.lookup_hits {
        0
    } else if i < design.lookup_hits + design.lookup_misses {
        1
    } else if i < design.lookup_hits + design.lookup_misses + design.inserts {
        2
    } else if i < design.lookup_hits + design.lookup_misses + design.inserts + design.updates {
        3
    } else {
        4
    }
}

/// The operation at position `i`: hits and misses are lookups, inserts and
/// updates are inserts, removes are removes.
pub open spec fn design_op_at(design: WorkloadDesign, i: int) -> WorkloadOp {
    let s = section_at(design, i);
    if s <= 1 {
        WorkloadOp::Lookup
    } else if s <= 3 {
        WorkloadOp::Insert
    } else {
        WorkloadOp::Remove
    }
}

/// Whether position `i` draws from the missing keys (lookup misses and
/// inserts) rather than from the present ones.
pub open spec fn draws_missing(design: WorkloadDesign, i: int) -> bool {
    section_at(design, i) == 1 || section_at(design, i) == 2
}

/// The pool of keys that position `i` draws from.
pub open spec fn design_pool_at(
    design: WorkloadDesign,
    existing: Seq<u64>,
    missing: Seq<u64>,
    i: int,
) -> Seq<u64> {
    if draws_missing(design, i) {
        missing
    } else {
        existing
    }
}

/// Whether `picks` holds, for every position, an index into its pool.
pub open spec fn design_valid_picks(
    design: WorkloadDesign,
    existing: Seq<u64>,
    missing: Seq<u64>,
    picks: Seq<usize>,
) -> bool {
    &&& picks.len() == design.total()
    &&& forall|i: int|
        0 <= i < picks.len() ==> (#[trigger] picks[i]) < design_pool_at(
            design,
            existing,
            missing,
            i,
        ).len()
}

/// The workload whose `i`-th key is `design_pool_at(i)[picks[i]]`.
pub open spec fn design_items(
    design: WorkloadDesign,
    existing: Seq<u64>,
    missing: Seq<u64>,
    picks: Seq<usize>,
) -> Seq<WorkItem<u64>> {
    Seq::new(
        design.total(),
        |i: int|
            WorkItem {
                op: design_op_at(design, i),
                key: design_pool_at(design, existing, missing, i)[picks[i] as int],
            },
    )
}

/// Builds the thread workload of `design` from the key picks made for its
/// positions, in order: lookup hits, lookup misses, inserts, updates, removes.
/// Lookup misses and inserts take the `picks[i]`-th missing key, the other
/// operations the `picks[i]`-th present key.
pub fn thread_workload_from_picks(
    design: &WorkloadDesign,
    existing_keys: &[u64],
    missing_keys: &[u64],
    picks: &[usize],
) -> (r: ThreadWorkload)
    requires
        design_valid_picks(*design, existing_keys@, missing_keys@, picks@),
    ensures
        r.items@ == design_items(*design, existing_keys@, missing_keys@, picks@),
{
    let total = picks.len();
    let h = design.lookup_hits;
    let hm = h + design.lookup_misses;
    let hmi = hm + design.inserts;
    let hmiu = hmi + design.updates;
    let mut items: Vec<WorkItem<u64>> = Vec::new();
    let mut i: usize = 0;
    while i < total
        invariant
            design_valid_picks(*design, existing_keys@, missing_keys@, picks@),
            total == picks@.len(),
            h == design.lookup_hits,
            hm == h + design.lookup_misses,
            hmi == hm + design.inserts,
            hmiu == hmi + design.updates,
            i <= total,
            items@ =~= design_items(*design, existing_keys@, missing_keys@, picks@).subrange(
                0,
                i as int,
            ),
        decreases total - i,
    {
        let missing = h <= i && i < hmi;
        let op = if i < hm {
            WorkloadOp::Lookup
        } else if i < hmiu {
            WorkloadOp::Insert
        } else {
            WorkloadOp::Remove
        };
        assert(op == design_op_at(*design, i as int));
        assert(missing == draws_missing(*design, i as int));
        assert(picks@[i as int] < design_pool_at(*design, existing_keys@, missing_keys@, i as int).len());
        let key = if missing {
            missing_keys[picks[i]]
        } else {
            existing_keys[picks[i]]
        };
        items.push(WorkItem { op, key });
        i = i + 1;
    }
    ThreadWorkload { items }
}

} // verus!

verus! {

/// How many times `op` occurs among the items.
pub open spec fn count_kind(items: Seq<WorkItem<u64>>, op: WorkloadOp) -> nat
    decreases items.len(),
{
    if items.len() == 0 {
        0
    } else {
        count_kind(items.drop_last(), op) + if items.last().op == op {
            1nat
        } else {
            0nat
        }
    }
}

/// The number of operations `op` that a design asks for: lookups are its
/// hits and misses, inserts its inserts and updates.
pub open spec fn kind_count(design: WorkloadDesign, op: WorkloadOp) -> nat {
    match op {
        WorkloadOp::Lookup => (design.lookup_hits + design.lookup_misses) as nat,
        WorkloadOp::Insert => (design.inserts + design.updates) as nat,
        WorkloadOp::Remove => design.removes as nat,
    }
}

/// The first position of the operations `op` in a design's workload.
pub open spec fn kind_start(design: WorkloadDesign, op: WorkloadOp) -> nat {
    match op {
        WorkloadOp::Lookup => 0,
        WorkloadOp::Insert => (design.lookup_hits + design.lookup_misses) as nat,
        WorkloadOp::Remove => (design.lookup_hits + design.lookup_misses + design.inserts
            + design.updates) as nat,
    }
}

/// How many of the first `n` positions fall in the run that starts at `lo`
/// and holds `len` positions.
pub open spec fn run_overlap(lo: nat, len: nat, n: nat) -> nat {
    if n <= lo {
        0
    } else if n >= lo + len {
        len
    } else {
        (n - lo) as nat
    }
}

proof fn lemma_kind_prefix(
    design: WorkloadDesign,
    existing: Seq<u64>,
    missing: Seq<u64>,
    picks: Seq<usize>,
    op: WorkloadOp,
    n: nat,
)
    requires
        n <= design.total(),
    ensures
        count_kind(design_items(design, existing, missing, picks).take(n as int), op)
            == run_overlap(kind_start(design, op), kind_count(design, op), n),
    decreases n,
{
    let items = design_items(design, existing, missing, picks);
    if n > 0 {
        lemma_kind_prefix(design, existing, missing, picks, op, (n - 1) as nat);
        assert(items.take(n as int).drop_last() =~= items.take(n - 1));
        assert(items.take(n as int).last() == items[n - 1]);
    }
}

/// Law: a thread workload built from a design and valid picks holds as many
/// lookups as the design has hits and misses, as many inserts as it has
/// inserts and updates, as many removes as it has removes; lookup misses and
/// inserts take missing keys, the other operations present keys.
pub proof fn lemma_thread_workload_follows_design(
    design: WorkloadDesign,
    existing: Seq<u64>,
    missing: Seq<u64>,
    picks: Seq<usize>,
    op: WorkloadOp,
)
    requires
        design_valid_picks(design, existing, missing, picks),
    ensures
        count_kind(design_items(design, existing, missing, picks), op) == kind_count(design, op),
        forall|i: int|
            0 <= i < design.total() ==> (if draws_missing(design, i) {
                missing.contains(
                    (#[trigger] design_items(design, existing, missing, picks)[i]).key,
                )
            } else {
                existing.contains(design_items(design, existing, missing, picks)[i].key)
            }),
{
    let items = design_items(design, existing, missing, picks);
    lemma_kind_prefix(design, existing, missing, picks, op, design.total());
    assert(items.take(design.total() as int) =~= items);
    assert forall|i: int| 0 <= i < design.total() implies (if draws_missing(design, i) {
        missing.contains((#[trigger] design_items(design, existing, missing, picks)[i]).key)
    } else {
        existing.contains(design_items(design, existing, missing, picks)[i].key)
    }) by {
        let pool = design_pool_at(design, existing, missing, i);
        assert(picks[i] < pool.len());
        assert(items[i].key == pool[picks[i] as int]);
    }
}

} // verus!

verus! {

/// Whether every pool that some position of `design` draws from holds a key.
pub open spec fn design_pools_cover(design: WorkloadDesign, existing: Seq<u64>, missing: Seq<u64>) -> bool {
    &&& (design.lookup_hits + design.updates + design.removes > 0 ==> existing.len() > 0)
    &&& (design.lookup_misses + design.inserts > 0 ==> missing.len() > 0)
}

/// Whether `items` is the thread workload of `design` for some valid picks.
pub open spec fn design_drawn_from(
    design: WorkloadDesign,
    existing: Seq<u64>,
    missing: Seq<u64>,
    items: Seq<WorkItem<u64>>,
) -> bool {
    exists|picks: Seq<usize>|
        design_valid_picks(design, existing, missing, picks) && items == design_items(
            design,
            existing,
            missing,
            picks,
        )
}

/// Builds the thread workload of `design` with keys drawn uniformly from their
/// pools, one draw per position in workload order.
pub fn uniform_thread_workload(
    design: &WorkloadDesign,
    existing_keys: &[u64],
    missing_keys: &[u64],
    rng: &mut StdRng,
) -> (r: ThreadWorkload)
    requires
        design.total() <= usize::MAX,
        design_pools_cover(*design, existing_keys@, missing_keys@),
    ensures
        design_drawn_from(*design, existing_keys@, missing_keys@, r.items@),
{
    let total = design.total_ops();
    let h = design.lookup_hits;
    let hmi = h + design.lookup_misses + design.inserts;
    let mut picks: Vec<usize> = Vec::new();
    let mut i: usize = 0;
    while i < total
        invariant
            total == design.total(),
            h == design.lookup_hits,
            hmi == design.lookup_hits + design.lookup_misses + design.inserts,
            design_pools_cover(*design, existing_keys@, missing_keys@),
            i <= total,
            picks@.len() == i,
            forall|j: int|
                0 <= j < i ==> (#[trigger] picks@[j]) < design_pool_at(
                    *design,
                    existing_keys@,
                    missing_keys@,
                    j,
                ).len(),
        decreases total - i,
    {
        let missing = h <= i && i < hmi;
        assert(missing == draws_missing(*design, i as int));
        let len = if missing {
            missing_keys.len()
        } else {
            existing_keys.len()
        };
        let pick = std_rng_index(rng, len);
        picks.push(pick);
        i = i + 1;
    }
    let r = thread_workload_from_picks(design, existing_keys, missing_keys, picks.as_slice());
    assert(design_valid_picks(*design, existing_keys@, missing_keys@, picks@));
    r
}

} // verus!
