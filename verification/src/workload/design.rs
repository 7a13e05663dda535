use vstd::prelude::*;
use crate::workload::{lemma_percent_shares, percent, percent_of};

verus! {

/// The number of each kind of operation in a workload.
#[derive(Clone, Copy, Debug)]
pub struct WorkloadDesign {
    pub lookup_hits: usize,
    pub lookup_misses: usize,
    pub inserts: usize,
    pub updates: usize,
    pub removes: usize,
}

impl WorkloadDesign {
    /// The number of operations of the design, as a mathematical integer.
    pub open spec fn total(&self) -> nat {
        (self.lookup_hits + self.lookup_misses + self.inserts + self.updates + self.removes) as nat
    }

    /// Whether the design gives each kind of operation the stated percentage
    /// of `total_ops`, rounded down.
    pub open spec fn has_shares(
        &self,
        total_ops: nat,
        hits: nat,
        misses: nat,
        inserts: nat,
        updates: nat,
        removes: nat,
    ) -> bool {
        &&& self.lookup_hits == percent_of(total_ops, hits)
        &&& self.lookup_misses == percent_of(total_ops, misses)
        &&& self.inserts == percent_of(total_ops, inserts)
        &&& self.updates == percent_of(total_ops, updates)
        &&& self.removes == percent_of(total_ops, removes)
    }

    pub fn total_ops(&self) -> (r: usize)
        requires
            self.total() <= usize::MAX,
        ensures
            r == self.total(),
    {
        self.lookup_hits + self.lookup_misses + self.inserts + self.updates + self.removes
    }

    /// The design with the given percentages of `total_ops`, each rounded
    /// down; the percentages add up to 100.
    fn from_percentages(
        total_ops: usize,
        lookup_hits: usize,
        lookup_misses: usize,
        inserts: usize,
        updates: usize,
        removes: usize,
    ) -> (r: Self)
        requires
            lookup_hits + lookup_misses + inserts + updates + removes == 100,
        ensures
            r.has_shares(
                total_ops as nat,
                lookup_hits as nat,
                lookup_misses as nat,
                inserts as nat,
                updates as nat,
                removes as nat,
            ),
            r.total() <= total_ops,
            total_ops < r.total() + 5,
    {
        proof {
            lemma_percent_shares(
                total_ops as nat,
                lookup_hits as nat,
                lookup_misses as nat,
                inserts as nat,
                updates as nat,
                removes as nat,
            );
        }
        Self {
            lookup_hits: percent(total_ops, lookup_hits),
            lookup_misses: percent(total_ops, lookup_misses),
            inserts: percent(total_ops, inserts),
            updates: percent(total_ops, updates),
            removes: percent(total_ops, removes),
        }
    }

    /// 20% lookups of present keys, 80% inserts.
    pub fn write_heavy(total_ops: usize) -> (r: Self)
        ensures
            r.has_shares(total_ops as nat, 20, 0, 80, 0, 0),
            r.total() <= total_ops,
            total_ops < r.total() + 5,
    {
        Self::from_percentages(total_ops, 20, 0, 80, 0, 0)
    }

    /// 40% lookup hits, 10% lookup misses, 10% inserts, 30% updates, 10% removes.
    pub fn high_churn(total_ops: usize) -> (r: Self)
        ensures
            r.has_shares(total_ops as nat, 40, 10, 10, 30, 10),
            r.total() <= total_ops,
            total_ops < r.total() + 5,
    {
        Self::from_percentages(total_ops, 40, 10, 10, 30, 10)
    }

    /// 75% lookup hits, 5% lookup misses, 5% inserts, 10% updates, 5% removes.
    pub fn balanced(total_ops: usize) -> (r: Self)
        ensures
            r.has_shares(total_ops as nat, 75, 5, 5, 10, 5),
            r.total() <= total_ops,
            total_ops < r.total() + 5,
    {
        Self::from_percentages(total_ops, 75, 5, 5, 10, 5)
    }

    /// 90% lookup hits, 5% lookup misses, 5% inserts.
    pub fn read_heavy(total_ops: usize) -> (r: Self)
        ensures
            r.has_shares(total_ops as nat, 90, 5, 5, 0, 0),
            r.total() <= total_ops,
            total_ops < r.total() + 5,
    {
        Self::from_percentages(total_ops, 90, 5, 5, 0, 0)
    }
}

} // verus!
