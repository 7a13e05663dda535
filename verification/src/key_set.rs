//! Sets of `u64` and `u128` keys, held in `hashbrown::HashSet`s.

use vstd::prelude::*;

verus! {

/// A set of `u64` keys backed by `hashbrown::HashSet<u64>`.
///
/// The set is private and reached only through the functions below, since
/// `hashbrown::HashSet`'s allocator parameter is bounded by a trait that
/// hashbrown does not export. Its contents are `key_set_contents`.
#[verifier::external_body]
pub struct KeySet {
    set: hashbrown::HashSet<u64>,
}

/// The keys that a `KeySet` holds.
pub uninterp spec fn key_set_contents(s: KeySet) -> Set<u64>;

/// An empty set (`hashbrown::HashSet::new`).
///
/// Trusted: `new` creates an empty set.
#[verifier::external_body]
pub(crate) fn key_set_new() -> (s: KeySet)
    ensures
        key_set_contents(s) == Set::<u64>::empty(),
{
    KeySet { set: hashbrown::HashSet::new() }
}

/// Adds `key` (`hashbrown::HashSet::insert`).
///
/// Trusted: `insert` adds the value and returns whether it was absent before,
/// as its documentation states.
#[verifier::external_body]
pub(crate) fn key_set_insert(s: &mut KeySet, key: u64) -> (inserted: bool)
    ensures
        key_set_contents(*final(s)) == key_set_contents(*old(s)).insert(key),
        inserted == !key_set_contents(*old(s)).contains(key),
{
    s.set.insert(key)
}

/// Whether `key` is in the set (`hashbrown::HashSet::contains`).
///
/// Trusted: `contains` reports membership, as its documentation states.
#[verifier::external_body]
pub(crate) fn key_set_contains(s: &KeySet, key: u64) -> (found: bool)
    ensures
        found == key_set_contents(*s).contains(key),
{
    s.set.contains(&key)
}

/// A set holding every key of `keys`, built by inserting them in turn.
pub fn key_set_from(keys: &[u64]) -> (s: KeySet)
    ensures
        key_set_contents(s) == keys@.to_set(),
        key_set_contents(s).finite(),
        key_set_contents(s).len() <= keys@.len(),
{
    let mut s = key_set_new();
    let mut i: usize = 0;
    while i < keys.len()
        invariant
            i <= keys@.len(),
            key_set_contents(s) == keys@.subrange(0, i as int).to_set(),
            key_set_contents(s).finite(),
            key_set_contents(s).len() <= i,
        decreases keys.len() - i,
    {
        key_set_insert(&mut s, keys[i]);
        assert(keys@.subrange(0, i + 1) == keys@.subrange(0, i as int).push(keys@[i as int]));
        proof {
            keys@.subrange(0, i as int).lemma_push_to_set_commute(keys@[i as int]);
        }
        i = i + 1;
    }
    assert(keys@.subrange(0, keys.len() as int) == keys@);
    s
}

/// If every key below `c` is in the finite set `t`, then `t` holds at least
/// `c` keys.
pub proof fn lemma_prefix_covered(t: Set<u64>, c: nat)
    requires
        t.finite(),
        c <= u64::MAX + 1,
        forall|x: u64| (x as nat) < c ==> t.contains(x),
    ensures
        c <= t.len(),
    decreases c,
{
    if c > 0 {
        let y = (c - 1) as u64;
        assert(t.contains(y));
        let t2 = t.remove(y);
        assert forall|x: u64| (x as nat) < c - 1 implies t2.contains(x) by {
            assert(t.contains(x));
        }
        lemma_prefix_covered(t2, (c - 1) as nat);
    }
}

/// The keys of `t` below `u64::MAX`.
pub open spec fn below_max(t: Set<u64>) -> Set<u64> {
    t.filter(|x: u64| x < u64::MAX)
}

/// The least key below `u64::MAX` that `s` does not hold; one exists because
/// `s` holds fewer than `u64::MAX` keys below `u64::MAX`.
pub fn first_absent(s: &KeySet) -> (r: u64)
    requires
        key_set_contents(*s).finite(),
        below_max(key_set_contents(*s)).len() < u64::MAX,
    ensures
        !key_set_contents(*s).contains(r),
        r < u64::MAX,
        forall|x: u64| x < r ==> key_set_contents(*s).contains(x),
{
    let ghost t = below_max(key_set_contents(*s));
    proof {
        key_set_contents(*s).lemma_len_filter(|x: u64| x < u64::MAX);
    }
    let mut c: u64 = 0;
    while key_set_contains(s, c)
        invariant
            t == below_max(key_set_contents(*s)),
            t.finite(),
            t.len() < u64::MAX,
            forall|x: u64| x < c ==> key_set_contents(*s).contains(x),
            c <= t.len(),
        decreases u64::MAX - c,
    {
        proof {
            assert forall|x: u64| (x as nat) < c + 1 implies t.contains(x) by {
                assert(key_set_contents(*s).contains(x));
            }
            lemma_prefix_covered(t, (c + 1) as nat);
        }
        c = c + 1;
    }
    c
}

/// A set of `u128` keys backed by `hashbrown::HashSet<u128>`, held like
/// `KeySet`. Its contents are `wide_key_set_contents`.
#[verifier::external_body]
pub struct WideKeySet {
    set: hashbrown::HashSet<u128>,
}

/// The keys that a `WideKeySet` holds.
pub uninterp spec fn wide_key_set_contents(s: WideKeySet) -> Set<u128>;

/// An empty set (`hashbrown::HashSet::new`).
///
/// Trusted: `new` creates an empty set.
#[verifier::external_body]
pub(crate) fn wide_key_set_new() -> (s: WideKeySet)
    ensures
        wide_key_set_contents(s) == Set::<u128>::empty(),
{
    WideKeySet { set: hashbrown::HashSet::new() }
}

/// Adds `key` (`hashbrown::HashSet::insert`).
///
/// Trusted: `insert` adds the value and returns whether it was absent before.
#[verifier::external_body]
pub(crate) fn wide_key_set_insert(s: &mut WideKeySet, key: u128) -> (inserted: bool)
    ensures
        wide_key_set_contents(*final(s)) == wide_key_set_contents(*old(s)).insert(key),
        inserted == !wide_key_set_contents(*old(s)).contains(key),
{
    s.set.insert(key)
}

/// Whether `key` is in the set (`hashbrown::HashSet::contains`).
///
/// Trusted: `contains` reports membership.
#[verifier::external_body]
pub(crate) fn wide_key_set_contains(s: &WideKeySet, key: u128) -> (found: bool)
    ensures
        found == wide_key_set_contents(*s).contains(key),
{
    s.set.contains(&key)
}

/// A set holding every key of `keys`, built by inserting them in turn.
pub fn wide_key_set_from(keys: &[u128]) -> (s: WideKeySet)
    ensures
        wide_key_set_contents(s) == keys@.to_set(),
        wide_key_set_contents(s).finite(),
        wide_key_set_contents(s).len() <= keys@.len(),
{
    let mut s = wide_key_set_new();
    let mut i: usize = 0;
    while i < keys.len()
        invariant
            i <= keys@.len(),
            wide_key_set_contents(s) == keys@.subrange(0, i as int).to_set(),
            wide_key_set_contents(s).finite(),
            wide_key_set_contents(s).len() <= i,
        decreases keys.len() - i,
    {
        wide_key_set_insert(&mut s, keys[i]);
        assert(keys@.subrange(0, i + 1) == keys@.subrange(0, i as int).push(keys@[i as int]));
        proof {
            keys@.subrange(0, i as int).lemma_push_to_set_commute(keys@[i as int]);
        }
        i = i + 1;
    }
    assert(keys@.subrange(0, keys.len() as int) == keys@);
    s
}

/// If every key in `base..base + c` is in the finite set `t`, then `t` holds
/// at least `c` keys.
pub proof fn lemma_run_covered(t: Set<u128>, base: nat, c: nat)
    requires
        t.finite(),
        base + c <= u128::MAX + 1,
        forall|x: u128| base <= (x as nat) < base + c ==> t.contains(x),
    ensures
        c <= t.len(),
    decreases c,
{
    if c > 0 {
        let y = (base + c - 1) as u128;
        assert(t.contains(y));
        let t2 = t.remove(y);
        assert forall|x: u128| base <= (x as nat) < base + c - 1 implies t2.contains(x) by {
            assert(t.contains(x));
        }
        lemma_run_covered(t2, base, (c - 1) as nat);
    }
}

} // verus!
