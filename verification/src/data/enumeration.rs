//! Enumerating the fixed-length words over an alphabet, so that a generator
//! can always find a word outside a set that holds fewer words than exist.

use vstd::prelude::*;
use vstd::arithmetic::div_mod::lemma_fundamental_div_mod;

verus! {

/// `b` to the power `e`.
pub open spec fn power(b: nat, e: nat) -> nat
    decreases e,
{
    if e == 0 {
        1
    } else {
        b * power(b, (e - 1) as nat)
    }
}

/// The word of length `len` that spells `k` in base `b`, least significant
/// digit first, each digit `d` written as the letter `letter(d)`.
pub open spec fn spell<A>(k: nat, b: nat, n: nat, letter: spec_fn(nat) -> A) -> Seq<A>
    decreases n,
{
    if n == 0 {
        Seq::empty()
    } else {
        Seq::<A>::empty().push(letter(k % b)) + spell(k / b, b, (n - 1) as nat, letter)
    }
}

/// Whether `letter` writes the digits below `b` as distinct letters.
pub open spec fn distinct_letters<A>(b: nat, letter: spec_fn(nat) -> A) -> bool {
    forall|x: nat, y: nat| x < b && y < b && #[trigger] letter(x) == #[trigger] letter(y) ==> x == y
}

/// A word spelled with `len` letters has length `len`.
pub proof fn lemma_spell_len<A>(k: nat, b: nat, n: nat, letter: spec_fn(nat) -> A)
    requires
        b > 0,
    ensures
        spell(k, b, n, letter).len() == n,
    decreases n,
{
    if n > 0 {
        let rest = spell(k / b, b, (n - 1) as nat, letter);
        lemma_spell_len(k / b, b, (n - 1) as nat, letter);
    }
}

/// Distinct numbers below `b^len` are spelled as distinct words.
pub proof fn lemma_spell_injective<A>(j: nat, k: nat, b: nat, n: nat, letter: spec_fn(nat) -> A)
    requires
        b > 1,
        distinct_letters(b, letter),
        j < power(b, n),
        k < power(b, n),
        spell(j, b, n, letter) == spell(k, b, n, letter),
    ensures
        j == k,
    decreases n,
{
    if n > 0 {
        let wj = spell(j, b, n, letter);
        let wk = spell(k, b, n, letter);
        let m = (n - 1) as nat;
        assert(wj[0] == letter(j % b));
        assert(wk[0] == letter(k % b));
        assert(j % b < b && k % b < b) by {
            lemma_fundamental_div_mod(j as int, b as int);
            lemma_fundamental_div_mod(k as int, b as int);
        }
        assert(j % b == k % b);
        assert(wj.subrange(1, wj.len() as int) =~= spell(j / b, b, m, letter));
        assert(wk.subrange(1, wk.len() as int) =~= spell(k / b, b, m, letter));
        lemma_fundamental_div_mod(j as int, b as int);
        lemma_fundamental_div_mod(k as int, b as int);
        assert(j / b < power(b, m)) by (nonlinear_arith)
            requires
                j == b * (j / b) + j % b,
                j % b >= 0,
                j < b * power(b, m),
                b > 0,
        ;
        assert(k / b < power(b, m)) by (nonlinear_arith)
            requires
                k == b * (k / b) + k % b,
                k % b >= 0,
                k < b * power(b, m),
                b > 0,
        ;
        lemma_spell_injective(j / b, k / b, b, m, letter);
    }
}

/// If the words spelling `0..c` all lie in the finite set `t` and `c` stays
/// below `b^len`, then `t` holds at least `c` words.
pub proof fn lemma_spelled_run_covered<A>(
    t: Set<Seq<A>>,
    b: nat,
    n: nat,
    letter: spec_fn(nat) -> A,
    c: nat,
)
    requires
        b > 1,
        distinct_letters(b, letter),
        t.finite(),
        c <= power(b, n),
        forall|j: nat| j < c ==> t.contains(#[trigger] spell(j, b, n, letter)),
    ensures
        c <= t.len(),
{
    let words = Seq::new(c, |j: int| spell(j as nat, b, n, letter));
    assert forall|x: int, y: int| 0 <= x < words.len() && 0 <= y < words.len() && x != y implies words[x]
        != words[y] by {
        if words[x] == words[y] {
            lemma_spell_injective(x as nat, y as nat, b, n, letter);
        }
    }
    words.unique_seq_to_set();
    assert forall|w: Seq<A>| words.to_set().contains(w) implies t.contains(w) by {
        let j = choose|j: int| 0 <= j < words.len() && words[j] == w;
        assert(t.contains(spell(j as nat, b, n, letter)));
    }
    vstd::set_lib::lemma_len_subset(words.to_set(), t);
}

} // verus!
