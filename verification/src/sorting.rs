//! Sorting vectors with `slice::sort`.

use vstd::prelude::*;
use vstd::laws_cmp::obeys_cmp;
use vstd::std_specs::cmp::OrdSpec;

verus! {

/// Whether no item of `s` orders after an item that follows it.
pub open spec fn ascending<T: Ord>(s: Seq<T>) -> bool {
    forall|i: int, j: int| 0 <= i < j < s.len() ==> !(s[i].cmp_spec(&s[j]) is Greater)
}

/// Whether `T`'s ordering is a total order that `sort` can rely on.
pub open spec fn sortable<T: Ord>() -> bool {
    obeys_cmp::<T>()
}

/// Sorts `v` in ascending order (`slice::sort`).
///
/// Trusted: `sort` rearranges the items into ascending order. It may panic
/// when `Ord` is not a total order, which `requires` excludes.
#[verifier::external_body]
pub(crate) fn sort_vec<T: Ord>(v: &mut Vec<T>)
    requires
        sortable::<T>(),
    ensures
        final(v)@.to_multiset() == old(v)@.to_multiset(),
        ascending(final(v)@),
{
    v.sort();
}

} // verus!
