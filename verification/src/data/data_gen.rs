use vstd::prelude::*;
use crate::map_data::clone_is_copy;
use crate::random::{shuffle_vec, thread_rng, thread_rng_u64_in};
use crate::sorting::{ascending, sort_vec, sortable};
use rand::rngs::ThreadRng;

verus! {

/// Whether `r` holds `count` items, none of which is in `avoid`.
pub open spec fn fresh<T>(r: Seq<T>, count: nat, avoid: Seq<T>) -> bool {
    &&& r.len() == count
    &&& forall|i: int| 0 <= i < r.len() ==> !avoid.contains(#[trigger] r[i])
}

/// A source of benchmark items.
pub trait DataGen {
    type Output;

    /// Whether the items of one call are distinct from each other. A
    /// generator that does not say so claims it of no call.
    open spec fn yields_distinct(&self) -> bool {
        false
    }

    /// Whether `count` distinct items outside `avoid` can be produced. A
    /// generator that does not say so claims it of no input.
    open spec fn can_generate(&self, count: nat, avoid: Seq<Self::Output>) -> bool {
        false
    }

    /// `count` items, none of them in `avoid` (distinct from each other
    /// where the generator yields distinct items), drawn with `rng`.
    fn generate_unique(&self, count: usize, avoid: &[Self::Output], rng: &mut ThreadRng) -> (r: Vec<
        Self::Output,
    >)
        requires
            self.can_generate(count as nat, avoid@),
        ensures
            fresh(r@, count as nat, avoid@),
            self.yields_distinct() ==> r@.no_duplicates(),
    ;

    /// `count` items (distinct where the generator yields distinct items),
    /// drawn from the thread's generator.
    fn generate(&self, count: usize) -> (r: Vec<Self::Output>)
        requires
            self.can_generate(count as nat, Seq::empty()),
        ensures
            r@.len() == count,
            self.yields_distinct() ==> r@.no_duplicates(),
    {
        let mut rng = thread_rng();
        let none: Vec<Self::Output> = Vec::new();
        self.generate_unique(count, none.as_slice(), &mut rng)
    }

    /// `count` items outside `avoid` (distinct where the generator yields
    /// distinct items), drawn from the thread's generator.
    fn generate_avoiding(&self, count: usize, avoid: &[Self::Output]) -> (r: Vec<Self::Output>)
        requires
            self.can_generate(count as nat, avoid@),
        ensures
            fresh(r@, count as nat, avoid@),
            self.yields_distinct() ==> r@.no_duplicates(),
    {
        let mut rng = thread_rng();
        self.generate_unique(count, avoid, &mut rng)
    }

    /// `count` items of which `unique_count` are drawn first (distinct where
    /// the generator yields distinct items), then repeats of them drawn
    /// uniformly. With `sorted` the result
    /// is then sorted, otherwise shuffled; when every item is distinct it is
    /// returned as drawn. (The share of distinct items that callers start
    /// from is rounded to `unique_count` by them.)
    fn generate_with_repeats(&self, count: usize, unique_count: usize, sorted: bool) -> (r: Vec<
        Self::Output,
    >) where Self::Output: Clone + Ord
        requires
            count > 0 ==> 1 <= unique_count <= count,
            count > 0 ==> self.can_generate(unique_count as nat, Seq::empty()),
            sorted ==> sortable::<Self::Output>(),
        ensures
            r@.len() == count,
            count > 0 && unique_count == count && self.yields_distinct() ==> r@.no_duplicates(),
            clone_is_copy::<Self::Output>() ==> r@.to_set().finite() && r@.to_set().len() <= (if count
                == 0 {
                0
            } else {
                unique_count as nat
            }),
            clone_is_copy::<Self::Output>() && self.yields_distinct() ==> r@.to_set().len() == (if count
                == 0 {
                0
            } else {
                unique_count as nat
            }),
            count > 0 && unique_count < count && sorted ==> ascending(r@),
    {
        if count == 0 {
            let r: Vec<Self::Output> = Vec::new();
            assert(r@.to_set() =~= Set::<Self::Output>::empty());
            return r;
        }
        let mut rng = thread_rng();
        let none: Vec<Self::Output> = Vec::new();
        let uniques = self.generate_unique(unique_count, none.as_slice(), &mut rng);
        proof {
            if self.yields_distinct() {
                uniques@.unique_seq_to_set();
            }
            uniques@.lemma_cardinality_of_set();
        }
        if unique_count == count {
            return uniques;
        }
        let mut result: Vec<Self::Output> = Vec::new();
        let mut i: usize = 0;
        while i < unique_count
            invariant
                uniques@.len() == unique_count,
                i <= unique_count,
                result@.len() == i,
                clone_is_copy::<Self::Output>() ==> forall|j: int|
                    0 <= j < i ==> #[trigger] result@[j] == uniques@[j],
            decreases unique_count - i,
        {
            let c = uniques[i].clone();
            assert(cloned(uniques@[i as int], c));
            result.push(c);
            i = i + 1;
        }
        while result.len() < count
            invariant
                1 <= unique_count < count,
                uniques@.len() == unique_count,
                unique_count <= result@.len() <= count,
                clone_is_copy::<Self::Output>() ==> forall|j: int|
                    0 <= j < unique_count ==> #[trigger] result@[j] == uniques@[j],
                clone_is_copy::<Self::Output>() ==> forall|j: int|
                    0 <= j < result@.len() ==> uniques@.contains(#[trigger] result@[j]),
            decreases count - result@.len(),
        {
            let idx = thread_rng_u64_in(&mut rng, 0, unique_count as u64) as usize;
            let c = uniques[idx].clone();
            assert(cloned(uniques@[idx as int], c));
            result.push(c);
        }
        let ghost drawn = result@;
        if sorted {
            sort_vec(&mut result);
        } else {
            shuffle_vec(&mut result, &mut rng);
        }
        proof {
            drawn.to_multiset_ensures();
            result@.to_multiset_ensures();
            if self.yields_distinct() {
                uniques@.unique_seq_to_set();
            }
            uniques@.lemma_cardinality_of_set();
            if clone_is_copy::<Self::Output>() {
                assert forall|x: Self::Output| result@.to_set().contains(x) <==> uniques@.to_set().contains(x) by {
                    assert(result@.contains(x) <==> result@.to_multiset().count(x) > 0);
                    assert(drawn.contains(x) <==> drawn.to_multiset().count(x) > 0);
                    if drawn.contains(x) {
                        let j = choose|j: int| 0 <= j < drawn.len() && drawn[j] == x;
                        assert(uniques@.contains(drawn[j]));
                    }
                    if uniques@.contains(x) {
                        let j = choose|j: int| 0 <= j < uniques@.len() && uniques@[j] == x;
                        assert(drawn[j] == x);
                    }
                }
                assert(result@.to_set() =~= uniques@.to_set());
            }
            result@.lemma_cardinality_of_set();
        }
        result
    }
}

} // verus!
