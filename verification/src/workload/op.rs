use vstd::prelude::*;

verus! {

/// The kind of a work item: a lookup, an insert (a fresh key or an update),
/// or a remove.
#[derive(Clone, Copy, Debug, PartialEq, Eq)]
pub enum WorkloadOp {
    Lookup,
    Insert,
    Remove,
}

} // verus!
