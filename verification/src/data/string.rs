use vstd::prelude::*;
use crate::data::data_gen::DataGen;
use crate::data::enumeration::{
    distinct_letters, lemma_spell_len, lemma_spelled_run_covered, power, spell,
};
use crate::random::thread_rng_u64_in;
use crate::text::{empty_string, string_push};
use rand::rngs::ThreadRng;

verus! {

/// The number of characters strings are drawn from.
pub const CHARSET_LEN: u64 = 62;

/// The `d`-th character of the alphabet of generated strings: `A`–`Z`, then
/// `a`–`z`, then `0`–`9`.
pub open spec fn charset_char(d: nat) -> char {
    if d < 26 {
        (65 + d) as char
    } else if d < 52 {
        (97 + (d - 26)) as char
    } else {
        (48 + (d - 52)) as char
    }
}

/// Whether `c` is an ASCII letter or digit.
pub open spec fn is_alphanumeric(c: char) -> bool {
    ||| 65 <= c as int <= 90
    ||| 97 <= c as int <= 122
    ||| 48 <= c as int <= 57
}

/// Whether `w` is a word of `len` ASCII letters and digits.
pub open spec fn is_alphanumeric_word(w: Seq<char>, len: nat) -> bool {
    &&& w.len() == len
    &&& forall|i: int| 0 <= i < w.len() ==> is_alphanumeric(#[trigger] w[i])
}

/// The word of `len` characters that spells `k` in base 62 over the alphabet.
pub open spec fn charset_word(k: nat, len: nat) -> Seq<char> {
    spell(k, CHARSET_LEN as nat, len, |d: nat| charset_char(d))
}

proof fn lemma_charset_distinct()
    ensures
        distinct_letters(CHARSET_LEN as nat, |d: nat| charset_char(d)),
{
    assert forall|x: nat, y: nat|
        x < CHARSET_LEN && y < CHARSET_LEN && #[trigger] charset_char(x) == #[trigger] charset_char(y)
            implies x == y by {
        assert(charset_char(x) as int == charset_char(y) as int);
    }
}

proof fn lemma_charset_word_alphanumeric(k: nat, len: nat)
    ensures
        is_alphanumeric_word(charset_word(k, len), len),
    decreases len,
{
    let letter = |d: nat| charset_char(d);
    lemma_spell_len(k, CHARSET_LEN as nat, len, letter);
    if len > 0 {
        lemma_charset_word_alphanumeric(k / CHARSET_LEN as nat, (len - 1) as nat);
        let w = charset_word(k, len);
        let rest = charset_word(k / CHARSET_LEN as nat, (len - 1) as nat);
        assert(w == Seq::<char>::empty().push(charset_char(k % CHARSET_LEN as nat)) + rest);
        assert forall|i: int| 0 <= i < w.len() implies is_alphanumeric(#[trigger] w[i]) by {
            if i > 0 {
                assert(w[i] == rest[i - 1]);
            }
        }
    }
}

/// The `d`-th character of the alphabet.
fn charset_at(d: u64) -> (c: char)
    requires
        d < CHARSET_LEN,
    ensures
        c == charset_char(d as nat),
        is_alphanumeric(c),
{
    if d < 26 {
        ((65 + d) as u8) as char
    } else if d < 52 {
        ((97 + (d - 26)) as u8) as char
    } else {
        ((48 + (d - 52)) as u8) as char
    }
}

/// Whether some string of `list` has the characters of `s`.
fn string_in(s: &String, list: &[String]) -> (r: bool)
    ensures
        r == exists|i: int| 0 <= i < list@.len() && (#[trigger] list@[i])@ == s@,
{
    let mut i: usize = 0;
    while i < list.len()
        invariant
            i <= list@.len(),
            forall|j: int| 0 <= j < i ==> (#[trigger] list@[j])@ != s@,
        decreases list.len() - i,
    {
        if list[i] == *s {
            return true;
        }
        i = i + 1;
    }
    false
}

/// Random alphanumeric strings of `LENGTH` characters.
pub struct StringDataGen<const LENGTH: usize>;

impl<const LENGTH: usize> StringDataGen<LENGTH> {
    /// A string of `LENGTH` characters, each drawn uniformly from the
    /// alphabet.
    fn random_word(rng: &mut ThreadRng) -> (r: String)
        ensures
            is_alphanumeric_word(r@, LENGTH as nat),
    {
        let mut s = empty_string();
        let mut i: usize = 0;
        while i < LENGTH
            invariant
                i <= LENGTH,
                is_alphanumeric_word(s@, i as nat),
            decreases LENGTH - i,
        {
            let d = thread_rng_u64_in(rng, 0, CHARSET_LEN);
            let c = charset_at(d);
            string_push(&mut s, c);
            i = i + 1;
        }
        s
    }

    /// The string that spells `k` in base 62 over the alphabet.
    fn word_of(k: u128) -> (r: String)
        ensures
            r@ == charset_word(k as nat, LENGTH as nat),
    {
        let ghost letter = |d: nat| charset_char(d);
        let mut s = empty_string();
        let mut cur: u128 = k;
        let mut i: usize = 0;
        while i < LENGTH
            invariant
                i <= LENGTH,
                letter == (|d: nat| charset_char(d)),
                s@ + spell(cur as nat, CHARSET_LEN as nat, (LENGTH - i) as nat, letter) == spell(
                    k as nat,
                    CHARSET_LEN as nat,
                    LENGTH as nat,
                    letter,
                ),
            decreases LENGTH - i,
        {
            let ghost before = s@;
            let c = charset_at((cur % (CHARSET_LEN as u128)) as u64);
            string_push(&mut s, c);
            proof {
                let rest = spell(
                    (cur as nat) / (CHARSET_LEN as nat),
                    CHARSET_LEN as nat,
                    (LENGTH - i - 1) as nat,
                    letter,
                );
                let n = (LENGTH - i) as nat;
                assert(c == letter((cur as nat) % (CHARSET_LEN as nat)));
                assert((cur / (CHARSET_LEN as u128)) as nat == (cur as nat) / (CHARSET_LEN as nat));
                assert((n - 1) as nat == (LENGTH - i - 1) as nat);
                assert(spell(cur as nat, CHARSET_LEN as nat, n, letter) == Seq::<char>::empty().push(
                    letter((cur as nat) % (CHARSET_LEN as nat)),
                ) + spell((cur as nat) / (CHARSET_LEN as nat), CHARSET_LEN as nat, (n - 1) as nat, letter));
                assert(before + (Seq::<char>::empty().push(c) + rest) =~= s@ + rest);
            }
            cur = cur / (CHARSET_LEN as u128);
            i = i + 1;
        }
        assert(s@ + spell(cur as nat, CHARSET_LEN as nat, 0, letter) =~= s@);
        s
    }

    /// The first string, in the order of `word_of`, that neither `avoid`
    /// nor `taken` holds. One exists because `taken` holds words of `LENGTH`
    /// alphanumeric characters and, with those of `avoid`, fewer than there
    /// are such words.
    fn first_free_word(avoid: &[String], taken: &[String]) -> (r: String)
        requires
            alphanumeric_words_among(avoid@, LENGTH as nat).len() + taken@.len() < power(
                CHARSET_LEN as nat,
                LENGTH as nat,
            ),
            forall|i: int| 0 <= i < taken@.len() ==> is_alphanumeric_word(#[trigger] taken@[i]@, LENGTH as nat),
        ensures
            is_alphanumeric_word(r@, LENGTH as nat),
            forall|i: int| 0 <= i < avoid@.len() ==> (#[trigger] avoid@[i])@ != r@,
            forall|i: int| 0 <= i < taken@.len() ==> (#[trigger] taken@[i])@ != r@,
    {
        let ghost letter = |d: nat| charset_char(d);
        let ghost among = alphanumeric_words_among(avoid@, LENGTH as nat);
        let ghost views: Set<Seq<char>> = among + word_views(taken@);
        proof {
            lemma_charset_distinct();
            lemma_words_among_len(avoid@, LENGTH as nat);
            taken@.map_values(|s: String| s@).lemma_cardinality_of_set();
            vstd::set_lib::lemma_len_union(among, word_views(taken@));
        }
        let avoid_len = avoid.len();
        let taken_len = taken.len();
        let mut k: u128 = 0;
        loop
            invariant
                avoid_len == avoid@.len(),
                taken_len == taken@.len(),
                among == alphanumeric_words_among(avoid@, LENGTH as nat),
                among.finite(),
                among.len() <= avoid@.len(),
                among.len() + taken@.len() < power(CHARSET_LEN as nat, LENGTH as nat),
                forall|i: int| 0 <= i < taken@.len() ==> is_alphanumeric_word(#[trigger] taken@[i]@, LENGTH as nat),
                views == among + word_views(taken@),
                views.finite(),
                views.len() <= among.len() + taken@.len(),
                distinct_letters(CHARSET_LEN as nat, letter),
                letter == (|d: nat| charset_char(d)),
                k <= views.len(),
                forall|j: nat| j < k ==> views.contains(#[trigger] spell(j, CHARSET_LEN as nat, LENGTH as nat, letter)),
            decreases power(CHARSET_LEN as nat, LENGTH as nat) - k,
        {
            let w = Self::word_of(k);
            proof {
                lemma_charset_word_alphanumeric(k as nat, LENGTH as nat);
            }
            if !string_in(&w, avoid) && !string_in(&w, taken) {
                return w;
            }
            proof {
                if string_in_spec(w@, avoid@) {
                    let i = choose|i: int| 0 <= i < avoid@.len() && (#[trigger] avoid@[i])@ == w@;
                    assert(avoid@.map_values(|s: String| s@)[i] == w@);
                    assert(word_views(avoid@).contains(w@));
                    assert(among.contains(w@));
                } else {
                    let i = choose|i: int| 0 <= i < taken@.len() && (#[trigger] taken@[i])@ == w@;
                    assert(taken@.map_values(|s: String| s@)[i] == w@);
                    assert(word_views(taken@).contains(w@));
                }
                assert(views.contains(w@));
                assert forall|j: nat| j < k + 1 implies views.contains(
                    #[trigger] spell(j, CHARSET_LEN as nat, LENGTH as nat, letter),
                ) by {
                    if j == k {
                        assert(w@ == spell(j, CHARSET_LEN as nat, LENGTH as nat, letter));
                    }
                }
                lemma_spelled_run_covered(views, CHARSET_LEN as nat, LENGTH as nat, letter, (k + 1) as nat);
            }
            assert(k + 1 <= avoid@.len() + taken@.len());
            k = k + 1;
        }
    }
}

/// The characters of each string of `s`, as a set.
pub open spec fn word_views(s: Seq<String>) -> Set<Seq<char>> {
    s.map_values(|x: String| x@).to_set()
}

/// The distinct words of `len` alphanumeric characters among the strings of
/// `avoid`: the only strings to avoid that a generator could draw.
pub open spec fn alphanumeric_words_among(avoid: Seq<String>, len: nat) -> Set<Seq<char>> {
    word_views(avoid).filter(|w: Seq<char>| is_alphanumeric_word(w, len))
}

proof fn lemma_words_among_len(avoid: Seq<String>, len: nat)
    ensures
        alphanumeric_words_among(avoid, len).finite(),
        alphanumeric_words_among(avoid, len).len() <= avoid.len(),
{
    avoid.map_values(|x: String| x@).lemma_cardinality_of_set();
    word_views(avoid).lemma_len_filter(|w: Seq<char>| is_alphanumeric_word(w, len));
}

/// Whether some string of `list` has the characters `w`.
spec fn string_in_spec(w: Seq<char>, list: Seq<String>) -> bool {
    exists|i: int| 0 <= i < list.len() && (#[trigger] list[i])@ == w
}

impl<const LENGTH: usize> DataGen for StringDataGen<LENGTH> {
    type Output = String;

    /// The items of one call are distinct.
    open spec fn yields_distinct(&self) -> bool {
        true
    }

    /// Nothing is asked, or the words of `LENGTH` alphanumeric characters
    /// that `avoid` does not hold are at least `count`.
    open spec fn can_generate(&self, count: nat, avoid: Seq<String>) -> bool {
        count == 0 || count + alphanumeric_words_among(avoid, LENGTH as nat).len() <= power(
            CHARSET_LEN as nat,
            LENGTH as nat,
        )
    }

    /// Draws strings of `LENGTH` alphanumeric characters, discarding those
    /// equal to a string of `avoid` or to one drawn before. After `u64::MAX`
    /// discarded draws in a row, the first free string in base-62 order is
    /// used instead.
    fn generate_unique(&self, count: usize, avoid: &[String], rng: &mut ThreadRng) -> (r: Vec<String>)
        ensures
            forall|i: int| 0 <= i < r@.len() ==> is_alphanumeric_word(#[trigger] r@[i]@, LENGTH as nat),
            forall|i: int, j: int| 0 <= i < j < r@.len() ==> r@[i]@ != r@[j]@,
            forall|i: int, j: int| 0 <= i < r@.len() && 0 <= j < avoid@.len() ==> r@[i]@ != avoid@[j]@,
    {
        let mut out: Vec<String> = Vec::new();
        let mut budget: u64 = u64::MAX;
        while out.len() < count
            invariant
                count > 0 ==> count + alphanumeric_words_among(avoid@, LENGTH as nat).len() <= power(
                    CHARSET_LEN as nat,
                    LENGTH as nat,
                ),
                out@.len() <= count,
                forall|i: int| 0 <= i < out@.len() ==> is_alphanumeric_word(#[trigger] out@[i]@, LENGTH as nat),
                forall|i: int, j: int| 0 <= i < j < out@.len() ==> out@[i]@ != out@[j]@,
                forall|i: int, j: int| 0 <= i < out@.len() && 0 <= j < avoid@.len() ==> out@[i]@ != avoid@[j]@,
            decreases count - out@.len(), budget,
        {
            let candidate = if budget > 0 {
                budget = budget - 1;
                Self::random_word(rng)
            } else {
                Self::first_free_word(avoid, out.as_slice())
            };
            if !string_in(&candidate, avoid) && !string_in(&candidate, out.as_slice()) {
                out.push(candidate);
                budget = u64::MAX;
            }
        }
        proof {
            assert forall|i: int, j: int| 0 <= i < out@.len() && 0 <= j < out@.len() && i != j implies out@[i]
                != out@[j] by {
                if i < j {
                    assert(out@[i]@ != out@[j]@);
                } else {
                    assert(out@[j]@ != out@[i]@);
                }
            }
            assert forall|i: int| 0 <= i < out@.len() implies !avoid@.contains(#[trigger] out@[i]) by {
                if avoid@.contains(out@[i]) {
                    let j = choose|j: int| 0 <= j < avoid@.len() && avoid@[j] == out@[i];
                    assert(out@[i]@ != avoid@[j]@);
                }
            }
        }
        out
    }
}

} // verus!
