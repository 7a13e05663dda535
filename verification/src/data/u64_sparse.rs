use vstd::prelude::*;
use crate::data::data_gen::DataGen;
use crate::key_set::{
    below_max, first_absent, key_set_contains, key_set_contents, key_set_from, key_set_insert,
};
use crate::random::thread_rng_u64_in;
use rand::rngs::ThreadRng;

verus! {

/// Keys drawn uniformly from `0..u64::MAX`.
pub struct U64SparseDataGen;

impl DataGen for U64SparseDataGen {
    type Output = u64;

    /// The items of one call are distinct.
    open spec fn yields_distinct(&self) -> bool {
        true
    }

    /// Nothing is asked, or the keys below `u64::MAX` that `avoid` does not
    /// hold are at least `count`.
    open spec fn can_generate(&self, count: nat, avoid: Seq<u64>) -> bool {
        count == 0 || count + below_max(avoid.to_set()).len() <= u64::MAX
    }

    /// Draws keys uniformly from `0..u64::MAX`, discarding keys in `avoid`
    /// and keys drawn before. After `u64::MAX` discarded draws in a row, the
    /// least key not yet taken is used instead.
    fn generate_unique(&self, count: usize, avoid: &[u64], rng: &mut ThreadRng) -> (r: Vec<u64>)
        ensures
            forall|i: int| 0 <= i < r@.len() ==> #[trigger] r@[i] < u64::MAX,
    {
        let mut taken = key_set_from(avoid);
        let mut out: Vec<u64> = Vec::new();
        let mut budget: u64 = u64::MAX;
        let ghost avoided = below_max(avoid@.to_set());
        proof {
            avoid@.to_set().lemma_len_filter(|x: u64| x < u64::MAX);
            out@.lemma_cardinality_of_set();
            assert(below_max(key_set_contents(taken)) =~= avoided + out@.to_set());
        }
        while out.len() < count
            invariant
                count > 0 ==> count + avoided.len() <= u64::MAX,
                avoided == below_max(avoid@.to_set()),
                avoided.finite(),
                out@.len() <= count,
                out@.no_duplicates(),
                forall|i: int| 0 <= i < out@.len() ==> !avoid@.contains(#[trigger] out@[i]),
                forall|i: int| 0 <= i < out@.len() ==> #[trigger] out@[i] < u64::MAX,
                key_set_contents(taken) == avoid@.to_set() + out@.to_set(),
                key_set_contents(taken).finite(),
                below_max(key_set_contents(taken)) == avoided + out@.to_set(),
                out@.to_set().finite(),
                out@.to_set().len() <= out@.len(),
            decreases count - out@.len(), budget,
        {
            proof {
                vstd::set_lib::lemma_len_union(avoided, out@.to_set());
            }
            let candidate = if budget > 0 {
                budget = budget - 1;
                thread_rng_u64_in(rng, 0, u64::MAX)
            } else {
                first_absent(&taken)
            };
            if !key_set_contains(&taken, candidate) {
                let ghost before = out@;
                key_set_insert(&mut taken, candidate);
                out.push(candidate);
                budget = u64::MAX;
                proof {
                    before.lemma_push_to_set_commute(candidate);
                    assert(!before.contains(candidate));
                    assert(!avoid@.contains(candidate));
                    assert(key_set_contents(taken) =~= avoid@.to_set() + out@.to_set());
                    assert(below_max(key_set_contents(taken)) =~= avoided + out@.to_set());
                    out@.lemma_cardinality_of_set();
                    assert forall|i: int, j: int|
                        0 <= i < out@.len() && 0 <= j < out@.len() && i != j implies out@[i]
                        != out@[j] by {
                        if i < before.len() && j < before.len() {
                        } else if i == before.len() {
                            assert(before.contains(out@[j]));
                        } else {
                            assert(before.contains(out@[i]));
                        }
                    }
                }
            }
        }
        out
    }
}

} // verus!
