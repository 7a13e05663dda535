use vstd::prelude::*;
use crate::workload::op::WorkloadOp;

verus! {

/// One operation of a thread workload and the key it targets.
#[derive(Clone, Copy, Debug)]
pub struct WorkItem<K> {
    pub op: WorkloadOp,
    pub key: K,
}

} // verus!
