use vstd::prelude::*;
use crate::data::data_gen::DataGen;
use crate::random::thread_rng_u64_in;
use rand::rngs::ThreadRng;

verus! {

/// Runs of consecutive keys starting at a random key.
#[derive(Clone, Copy)]
pub struct U64DenseDataGen;

/// The keys of `avoid` at or above `start`.
pub open spec fn avoided_from(avoid: Seq<u64>, start: int) -> Set<u64> {
    avoid.to_set().filter(|a: u64| a >= start)
}

/// A key of `avoid` inside the run `start..start + n`, if there is one.
fn run_hit(start: u64, n: u64, avoid: &[u64]) -> (r: Option<u64>)
    requires
        start + n <= u64::MAX,
    ensures
        match r {
            Some(a) => avoid@.contains(a) && start <= a < start + n,
            None => forall|i: int| 0 <= i < avoid@.len() ==> !(start <= #[trigger] avoid@[i] < start + n),
        },
{
    let mut i: usize = 0;
    while i < avoid.len()
        invariant
            start + n <= u64::MAX,
            i <= avoid@.len(),
            forall|j: int| 0 <= j < i ==> !(start <= #[trigger] avoid@[j] < start + n),
        decreases avoid.len() - i,
    {
        let a = avoid[i];
        if start <= a && a < start + n {
            assert(avoid@[i as int] == a);
            return Some(a);
        }
        i = i + 1;
    }
    None
}

/// The start of a run of `n` keys that holds no key of `avoid`, found by
/// moving past each key of `avoid` that the run meets. Each move passes a
/// distinct key of `avoid` and goes at most `n` keys further, so the run
/// stays below `u64::MAX`.
fn free_run_start(n: u64, avoid: &[u64]) -> (r: u64)
    requires
        n > 0,
        (avoid@.to_set().len() + 1) * n < u64::MAX,
    ensures
        r + n < u64::MAX,
        forall|i: int| 0 <= i < avoid@.len() ==> !(r <= #[trigger] avoid@[i] < r + n),
{
    let ghost m = avoid@.to_set().len();
    let mut start: u64 = 0;
    proof {
        avoid@.lemma_cardinality_of_set();
        assert(avoided_from(avoid@, 0) =~= avoid@.to_set());
    }
    loop
        invariant
            n > 0,
            m == avoid@.to_set().len(),
            avoid@.to_set().finite(),
            (m + 1) * n < u64::MAX,
            avoided_from(avoid@, start as int).finite(),
            avoided_from(avoid@, start as int).len() <= m,
            start <= (m - avoided_from(avoid@, start as int).len()) * n,
        decreases avoided_from(avoid@, start as int).len(),
    {
        let ghost left = avoided_from(avoid@, start as int).len();
        proof {
            assert(start + n <= (m + 1) * n) by (nonlinear_arith)
                requires
                    start <= (m - left) * n,
                    left >= 0,
                    m - left <= m,
                    n > 0,
            ;
        }
        match run_hit(start, n, avoid) {
            None => {
                return start;
            },
            Some(a) => {
                let ghost before = avoided_from(avoid@, start as int);
                let next = a + 1;
                proof {
                    let after = avoided_from(avoid@, next as int);
                    assert(before.contains(a));
                    assert(after.subset_of(before.remove(a)));
                    vstd::set_lib::lemma_len_subset(after, before.remove(a));
                    avoid@.to_set().lemma_len_filter(|x: u64| x >= next as int);
                    assert(after.len() + 1 <= left);
                    assert(next <= (m - after.len()) * n) by (nonlinear_arith)
                        requires
                            next <= start + n,
                            start <= (m - left) * n,
                            after.len() + 1 <= left,
                            left <= m,
                            n > 0,
                    ;
                }
                start = next;
            },
        }
    }
}

impl DataGen for U64DenseDataGen {
    type Output = u64;

    /// The items of one call are distinct.
    open spec fn yields_distinct(&self) -> bool {
        true
    }

    /// Nothing is asked, or `count` keys fit below `u64::MAX` once for each
    /// distinct key of `avoid` and once more, which leaves room for a run
    /// that passes every key to avoid.
    open spec fn can_generate(&self, count: nat, avoid: Seq<u64>) -> bool {
        count == 0 || (avoid.to_set().len() + 1) * count < u64::MAX
    }

    /// `count` consecutive keys from a start drawn uniformly from
    /// `0..u64::MAX - count`, drawn again while the run meets a key of
    /// `avoid`. After `u64::MAX` such draws in a row, the first free run
    /// found by moving past the keys to avoid is used instead.
    fn generate_unique(&self, count: usize, avoid: &[u64], rng: &mut ThreadRng) -> (r: Vec<u64>)
        ensures
            forall|i: int| 0 <= i < r@.len() ==> #[trigger] r@[i] == r@[0] + i,
            count > 0 ==> r@[0] + count < u64::MAX,
    {
        if count == 0 {
            return Vec::new();
        }
        proof {
            avoid@.lemma_cardinality_of_set();
            assert(count <= (avoid@.to_set().len() + 1) * count) by (nonlinear_arith)
                requires
                    count > 0,
            ;
        }
        let n = count as u64;
        let start_max = u64::MAX - n;
        let mut budget: u64 = u64::MAX;
        let mut start: u64 = 0;
        loop
            invariant
                n == count,
                0 < n < u64::MAX,
                start_max == u64::MAX - n,
                (avoid@.to_set().len() + 1) * count < u64::MAX,
            ensures
                start + n < u64::MAX,
                forall|i: int| 0 <= i < avoid@.len() ==> !(start <= #[trigger] avoid@[i] < start + n),
            decreases budget,
        {
            if budget == 0 {
                start = free_run_start(n, avoid);
                break;
            }
            budget = budget - 1;
            let s = thread_rng_u64_in(rng, u64::MIN, start_max);
            if run_hit(s, n, avoid).is_none() {
                start = s;
                break;
            }
        }
        let mut out: Vec<u64> = Vec::new();
        let mut i: u64 = 0;
        while i < n
            invariant
                n == count,
                start + n < u64::MAX,
                i <= n,
                out@.len() == i,
                forall|j: int| 0 <= j < i ==> #[trigger] out@[j] == start + j,
            decreases n - i,
        {
            out.push(start + i);
            i = i + 1;
        }
        assert forall|a: int, b: int| 0 <= a < out@.len() && 0 <= b < out@.len() && a != b implies out@[a]
            != out@[b] by {
            assert(out@[a] == start + a);
            assert(out@[b] == start + b);
        }
        assert forall|j: int| 0 <= j < out@.len() implies !avoid@.contains(#[trigger] out@[j]) by {
            if avoid@.contains(out@[j]) {
                let k = choose|k: int| 0 <= k < avoid@.len() && avoid@[k] == out@[j];
                assert(!(start <= avoid@[k] < start + n));
            }
        }
        out
    }
}

} // verus!
