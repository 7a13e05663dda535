use vstd::prelude::*;
use crate::data::data_gen::DataGen;
use crate::data::enumeration::{distinct_letters, lemma_spelled_run_covered, power, spell};
use rand::rngs::ThreadRng;
use rand::RngExt;

verus! {

/// The number of values a byte takes.
pub const BYTE_VALUES: u64 = 256;

/// The array of `LENGTH` bytes that spells `k` in base 256, least significant
/// byte first.
pub open spec fn byte_word(k: nat, len: nat) -> Seq<u8> {
    spell(k, BYTE_VALUES as nat, len, |d: nat| d as u8)
}

/// An array of random bytes (`RngExt::fill` on a `ThreadRng`).
///
/// Trusted: `fill` overwrites the bytes of the array; which bytes come out
/// is left open.
#[verifier::external_body]
fn random_byte_array<const LENGTH: usize>(rng: &mut ThreadRng) -> [u8; LENGTH] {
    let mut arr = [0u8; LENGTH];
    rng.fill(&mut arr);
    arr
}

/// Whether some array of `list` holds the bytes of `a`.
fn bytes_in<const LENGTH: usize>(a: &[u8; LENGTH], list: &[[u8; LENGTH]]) -> (r: bool)
    ensures
        r == exists|i: int| 0 <= i < list@.len() && (#[trigger] list@[i])@ == a@,
{
    let mut i: usize = 0;
    while i < list.len()
        invariant
            i <= list@.len(),
            forall|j: int| 0 <= j < i ==> (#[trigger] list@[j])@ != a@,
        decreases list.len() - i,
    {
        let other: &[u8; LENGTH] = &list[i];
        let mut j: usize = 0;
        let mut same = true;
        while j < LENGTH
            invariant
                j <= LENGTH,
                same == (forall|x: int| 0 <= x < j ==> other@[x] == a@[x]),
            decreases LENGTH - j,
        {
            if other[j] != a[j] {
                same = false;
            }
            j = j + 1;
        }
        if same {
            assert(other@ =~= a@);
            return true;
        }
        assert(other@ != a@) by {
            let x = choose|x: int| 0 <= x < LENGTH && other@[x] != a@[x];
        }
        i = i + 1;
    }
    false
}

/// Random arrays of `LENGTH` bytes.
pub struct ByteArrayDataGen<const LENGTH: usize>;

impl<const LENGTH: usize> ByteArrayDataGen<LENGTH> {
    /// The array that spells `k` in base 256.
    fn word_of(k: u128) -> (r: [u8; LENGTH])
        ensures
            r@ == byte_word(k as nat, LENGTH as nat),
    {
        let ghost letter = |d: nat| d as u8;
        let mut arr: [u8; LENGTH] = vstd::array::array_fill_for_copy_types(0u8);
        let mut cur: u128 = k;
        let mut i: usize = 0;
        while i < LENGTH
            invariant
                i <= LENGTH,
                letter == (|d: nat| d as u8),
                arr@.len() == LENGTH,
                arr@.subrange(0, i as int) + spell(cur as nat, BYTE_VALUES as nat, (LENGTH - i) as nat, letter)
                    == spell(k as nat, BYTE_VALUES as nat, LENGTH as nat, letter),
            decreases LENGTH - i,
        {
            let ghost before = arr@.subrange(0, i as int);
            let b = (cur % (BYTE_VALUES as u128)) as u8;
            arr[i] = b;
            proof {
                let n = (LENGTH - i) as nat;
                let rest = spell((cur as nat) / (BYTE_VALUES as nat), BYTE_VALUES as nat, (n - 1) as nat, letter);
                assert(b == letter((cur as nat) % (BYTE_VALUES as nat)));
                assert(spell(cur as nat, BYTE_VALUES as nat, n, letter) == Seq::<u8>::empty().push(b) + rest);
                assert(arr@.subrange(0, i + 1) =~= before.push(b));
                assert(before + (Seq::<u8>::empty().push(b) + rest) =~= arr@.subrange(0, i + 1) + rest);
                assert((cur / (BYTE_VALUES as u128)) as nat == (cur as nat) / (BYTE_VALUES as nat));
            }
            cur = cur / (BYTE_VALUES as u128);
            i = i + 1;
        }
        assert(arr@.subrange(0, LENGTH as int) =~= arr@);
        assert(arr@ + spell(cur as nat, BYTE_VALUES as nat, 0, letter) =~= arr@);
        arr
    }

    /// The first array, in the order of `word_of`, that `avoid` does not
    /// hold; one exists because `avoid` holds fewer distinct arrays than
    /// there are arrays of `LENGTH` bytes.
    fn first_free_word(avoid: &[[u8; LENGTH]]) -> (r: [u8; LENGTH])
        requires
            array_views(avoid@).len() < power(BYTE_VALUES as nat, LENGTH as nat),
        ensures
            forall|i: int| 0 <= i < avoid@.len() ==> (#[trigger] avoid@[i])@ != r@,
    {
        let ghost letter = |d: nat| d as u8;
        let ghost views = array_views(avoid@);
        proof {
            avoid@.map_values(|a: [u8; LENGTH]| a@).lemma_cardinality_of_set();
        }
        let avoid_len = avoid.len();
        let mut k: u128 = 0;
        loop
            invariant
                avoid_len == avoid@.len(),
                views == array_views(avoid@),
                views.finite(),
                views.len() <= avoid@.len(),
                views.len() < power(BYTE_VALUES as nat, LENGTH as nat),
                distinct_letters(BYTE_VALUES as nat, letter),
                letter == (|d: nat| d as u8),
                k <= views.len(),
                forall|j: nat| j < k ==> views.contains(#[trigger] spell(j, BYTE_VALUES as nat, LENGTH as nat, letter)),
            decreases power(BYTE_VALUES as nat, LENGTH as nat) - k,
        {
            let w = Self::word_of(k);
            if !bytes_in(&w, avoid) {
                return w;
            }
            proof {
                let i = choose|i: int| 0 <= i < avoid@.len() && (#[trigger] avoid@[i])@ == w@;
                assert(avoid@.map_values(|a: [u8; LENGTH]| a@)[i] == w@);
                assert(views.contains(w@));
                assert forall|j: nat| j < k + 1 implies views.contains(
                    #[trigger] spell(j, BYTE_VALUES as nat, LENGTH as nat, letter),
                ) by {
                    if j == k {
                        assert(w@ == spell(j, BYTE_VALUES as nat, LENGTH as nat, letter));
                    }
                }
                lemma_spelled_run_covered(views, BYTE_VALUES as nat, LENGTH as nat, letter, (k + 1) as nat);
            }
            assert(k + 1 <= avoid@.len());
            k = k + 1;
        }
    }
}

/// The bytes of each array of `s`, as a set: the distinct arrays of `s`.
pub open spec fn array_views<const LENGTH: usize>(s: Seq<[u8; LENGTH]>) -> Set<Seq<u8>> {
    s.map_values(|a: [u8; LENGTH]| a@).to_set()
}

impl<const LENGTH: usize> DataGen for ByteArrayDataGen<LENGTH> {
    type Output = [u8; LENGTH];

    /// Nothing is asked, or some array of `LENGTH` bytes is not in `avoid`.
    open spec fn can_generate(&self, count: nat, avoid: Seq<[u8; LENGTH]>) -> bool {
        count == 0 || array_views(avoid).len() < power(BYTE_VALUES as nat, LENGTH as nat)
    }

    /// Fills arrays with random bytes, one per item, refilling those equal
    /// to an array of `avoid`; the items are not compared with each other.
    /// After `u64::MAX` refills in a row, the first array in base-256 order
    /// that `avoid` does not hold is used instead.
    fn generate_unique(&self, count: usize, avoid: &[[u8; LENGTH]], rng: &mut ThreadRng) -> (r: Vec<[u8; LENGTH]>)
        ensures
            forall|i: int, j: int| 0 <= i < r@.len() && 0 <= j < avoid@.len() ==> r@[i]@ != avoid@[j]@,
    {
        let mut out: Vec<[u8; LENGTH]> = Vec::new();
        let mut budget: u64 = u64::MAX;
        while out.len() < count
            invariant
                count > 0 ==> array_views(avoid@).len() < power(BYTE_VALUES as nat, LENGTH as nat),
                out@.len() <= count,
                forall|i: int, j: int| 0 <= i < out@.len() && 0 <= j < avoid@.len() ==> out@[i]@ != avoid@[j]@,
            decreases count - out@.len(), budget,
        {
            let candidate = if budget > 0 {
                budget = budget - 1;
                random_byte_array(rng)
            } else {
                Self::first_free_word(avoid)
            };
            if !bytes_in(&candidate, avoid) {
                out.push(candidate);
                budget = u64::MAX;
            }
        }
        proof {
            assert forall|i: int| 0 <= i < out@.len() implies !avoid@.contains(#[trigger] out@[i]) by {
                if avoid@.contains(out@[i]) {
                    let j = choose|j: int| 0 <= j < avoid@.len() && avoid@[j] == out@[i];
                    assert(out@[i]@ != avoid@[j]@);
                }
            }
        }
        out
    }
}

} // verus!
