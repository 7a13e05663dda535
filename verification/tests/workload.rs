use bench_map::maps::sync_benchmap::SyncBenchMap;
use bench_map::workload::design::WorkloadDesign as ThreadDesign;
use bench_map::workload::op::WorkloadOp;
use bench_map::workload::thread_workload::{thread_workload_from_picks, uniform_thread_workload};
use bench_map::workload::{
    generate_workload, generate_workloads, planned_call, run_workload, workload_from_picks,
    MapCall, Op, WorkItem, WorkloadDesign,
};
use rand::SeedableRng;
use std::collections::HashMap;
use std::sync::Mutex;

#[test]
fn balanced_design_shares() {
    let d = WorkloadDesign::balanced(100);
    assert_eq!(
        (d.lookup_hits, d.lookup_misses, d.inserts, d.updates, d.removes),
        (80, 0, 5, 10, 5)
    );
    assert_eq!(d.total_ops(), 100);

    let d = WorkloadDesign::balanced(10_000);
    assert_eq!(
        (d.lookup_hits, d.lookup_misses, d.inserts, d.updates, d.removes),
        (8000, 0, 500, 1000, 500)
    );

    // Each share is rounded down.
    let d = WorkloadDesign::balanced(19);
    assert_eq!((d.lookup_hits, d.inserts, d.updates, d.removes), (15, 0, 1, 0));
    assert_eq!(d.total_ops(), 16);
}

#[test]
fn thread_designs_shares() {
    let d = ThreadDesign::write_heavy(1000);
    assert_eq!((d.lookup_hits, d.lookup_misses, d.inserts, d.updates, d.removes), (200, 0, 800, 0, 0));
    let d = ThreadDesign::high_churn(1000);
    assert_eq!((d.lookup_hits, d.lookup_misses, d.inserts, d.updates, d.removes), (400, 100, 100, 300, 100));
    let d = ThreadDesign::balanced(1000);
    assert_eq!((d.lookup_hits, d.lookup_misses, d.inserts, d.updates, d.removes), (750, 50, 50, 100, 50));
    let d = ThreadDesign::read_heavy(1000);
    assert_eq!((d.lookup_hits, d.lookup_misses, d.inserts, d.updates, d.removes), (900, 50, 50, 0, 0));
    assert_eq!(d.total_ops(), 1000);
    let d = ThreadDesign::read_heavy(0);
    assert_eq!(d.total_ops(), 0);
}

fn small_design() -> WorkloadDesign {
    WorkloadDesign { lookup_hits: 2, lookup_misses: 1, inserts: 1, updates: 1, removes: 1 }
}

#[test]
fn workload_from_picks_takes_keys_from_the_right_pool() {
    let existing = [10u64, 11, 12];
    let missing = [20u64, 21];
    let picks = [2usize, 0, 1, 0, 1, 2];
    let w = workload_from_picks(&small_design(), &existing, &missing, &picks);
    let got: Vec<(Op, u64)> = w.items.iter().map(|i| (i.op, i.key)).collect();
    assert_eq!(
        got,
        vec![
            (Op::LookupHit, 12),
            (Op::LookupHit, 10),
            (Op::LookupMiss, 21),
            (Op::Insert, 20),
            (Op::Update, 11),
            (Op::Remove, 12),
        ]
    );
}

#[test]
fn generate_workload_follows_the_design() {
    let design = WorkloadDesign::balanced(1000);
    let existing: Vec<u64> = (0..100).collect();
    let missing: Vec<u64> = (1000..1100).collect();
    let mut rng = rand::rngs::StdRng::seed_from_u64(7);
    let w = generate_workload(&design, &existing, &missing, &mut rng);
    assert_eq!(w.items.len(), design.total_ops());
    let count = |op: Op| w.items.iter().filter(|i| i.op == op).count();
    assert_eq!(count(Op::LookupHit), design.lookup_hits);
    assert_eq!(count(Op::LookupMiss), design.lookup_misses);
    assert_eq!(count(Op::Insert), design.inserts);
    assert_eq!(count(Op::Update), design.updates);
    assert_eq!(count(Op::Remove), design.removes);
    for item in &w.items {
        match item.op {
            Op::LookupMiss | Op::Insert => assert!(missing.contains(&item.key)),
            _ => assert!(existing.contains(&item.key)),
        }
    }
}

#[test]
fn generate_workloads_are_seeded_per_thread() {
    let design = WorkloadDesign::balanced(200);
    let existing: Vec<u64> = (0..50).collect();
    let missing: Vec<u64> = (500..550).collect();
    let a = generate_workloads(&design, &existing, &missing, 3);
    let b = generate_workloads(&design, &existing, &missing, 3);
    assert_eq!(a.len(), 3);
    for t in 0..3 {
        let ka: Vec<u64> = a[t].items.iter().map(|i| i.key).collect();
        let kb: Vec<u64> = b[t].items.iter().map(|i| i.key).collect();
        assert_eq!(ka, kb);
        let mut rng = rand::rngs::StdRng::seed_from_u64(42 + t as u64);
        let single = generate_workload(&design, &existing, &missing, &mut rng);
        let ks: Vec<u64> = single.items.iter().map(|i| i.key).collect();
        assert_eq!(ka, ks);
    }
    assert!(generate_workloads(&design, &existing, &missing, 0).is_empty());
}

#[test]
fn thread_workload_from_picks_in_design_order() {
    let design = ThreadDesign { lookup_hits: 1, lookup_misses: 1, inserts: 1, updates: 1, removes: 1 };
    let existing = [1u64, 2];
    let missing = [7u64, 8];
    let w = thread_workload_from_picks(&design, &existing, &missing, &[1, 0, 1, 0, 1]);
    let got: Vec<(WorkloadOp, u64)> = w.items.iter().map(|i| (i.op, i.key)).collect();
    assert_eq!(
        got,
        vec![
            (WorkloadOp::Lookup, 2),
            (WorkloadOp::Lookup, 7),
            (WorkloadOp::Insert, 8),
            (WorkloadOp::Insert, 1),
            (WorkloadOp::Remove, 2),
        ]
    );
}

#[test]
fn uniform_thread_workload_follows_the_design() {
    let design = ThreadDesign::high_churn(500);
    let existing: Vec<u64> = (0..20).collect();
    let missing: Vec<u64> = (100..120).collect();
    let mut rng = rand::rngs::StdRng::seed_from_u64(1);
    let w = uniform_thread_workload(&design, &existing, &missing, &mut rng);
    assert_eq!(w.items.len(), 500);
    let lookups = w.items.iter().filter(|i| i.op == WorkloadOp::Lookup).count();
    let inserts = w.items.iter().filter(|i| i.op == WorkloadOp::Insert).count();
    let removes = w.items.iter().filter(|i| i.op == WorkloadOp::Remove).count();
    assert_eq!((lookups, inserts, removes), (250, 200, 50));
    for (i, item) in w.items.iter().enumerate() {
        let from_missing = (200..300).contains(&i);
        assert_eq!(missing.contains(&item.key), from_missing);
        assert_eq!(existing.contains(&item.key), !from_missing);
    }
}

struct LockedMap {
    map: Mutex<HashMap<u64, u64>>,
}

impl SyncBenchMap<u64, u64> for LockedMap {
    fn new() -> Self {
        LockedMap { map: Mutex::new(HashMap::new()) }
    }
    fn insert(&self, key: u64, value: u64) {
        self.map.lock().unwrap().insert(key, value);
    }
    fn get_cloned(&self, key: &u64) -> Option<u64> {
        self.map.lock().unwrap().get(key).copied()
    }
    fn remove(&self, key: &u64) -> Option<u64> {
        self.map.lock().unwrap().remove(key)
    }
}

#[test]
fn run_workload_applies_each_operation() {
    let map = LockedMap::new();
    map.insert(10, 1);
    map.insert(11, 1);
    map.insert(12, 1);
    let existing = [10u64, 11, 12];
    let missing = [20u64, 21];
    let w = workload_from_picks(&small_design(), &existing, &missing, &[0, 1, 1, 0, 1, 2]);
    run_workload::<LockedMap, u64, u64>(&map, &w);
    // Lookups change nothing; the insert writes 42, the update 99, the remove deletes.
    assert_eq!(map.get_cloned(&10), Some(1));
    assert_eq!(map.get_cloned(&21), None);
    assert_eq!(map.get_cloned(&20), Some(42));
    assert_eq!(map.get_cloned(&11), Some(99));
    assert_eq!(map.get_cloned(&12), None);
}

#[test]
fn thread_rng_is_usable() {
    let mut rng = rand::rng();
    let w = uniform_thread_workload(
        &ThreadDesign { lookup_hits: 3, lookup_misses: 0, inserts: 0, updates: 0, removes: 0 },
        &[5],
        &[],
        &mut rand::rngs::StdRng::from_rng(&mut rng),
    );
    assert!(w.items.iter().all(|i| i.key == 5 && i.op == WorkloadOp::Lookup));
}

#[test]
fn planned_calls_per_operation() {
    let call = |op| planned_call(WorkItem { op, key: 7 });
    assert_eq!(call(Op::LookupHit), MapCall::Get(7));
    assert_eq!(call(Op::LookupMiss), MapCall::Get(7));
    assert_eq!(call(Op::Insert), MapCall::Insert(7, 42));
    assert_eq!(call(Op::Update), MapCall::Insert(7, 99));
    assert_eq!(call(Op::Remove), MapCall::Remove(7));
}
