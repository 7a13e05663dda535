//! Fixed-width rendering of entry counts with `_` thousands separators.

use vstd::prelude::*;
use crate::data::enumeration::power;
use crate::text::{empty_string, string_push};

verus! {

/// Digits reserved for a count; a count with more digits is not truncated.
pub const MAX_DIGITS: usize = 7;

/// Width of the rendered field: `MAX_DIGITS` digits and their separators.
pub const TARGET_WIDTH: usize = 9;

/// The character of a decimal digit.
pub open spec fn digit_char(d: nat) -> char
    recommends
        d < 10,
{
    ((d + 48) as u8) as char
}

/// The decimal representation of `n`, most significant digit first.
pub open spec fn decimal(n: nat) -> Seq<char>
    decreases n,
{
    if n < 10 {
        seq![digit_char(n)]
    } else {
        decimal(n / 10).push(digit_char(n % 10))
    }
}

/// The first `k` digits of `d`, with `_` written before every digit that
/// starts a group of three counted from the right end of `d`.
pub open spec fn grouped_prefix(d: Seq<char>, k: nat) -> Seq<char>
    decreases k,
{
    if k == 0 {
        Seq::empty()
    } else {
        let i = (k - 1) as nat;
        let before = grouped_prefix(d, i);
        if i > 0 && (d.len() - i) % 3 == 0 {
            before.push('_').push(d[i as int])
        } else {
            before.push(d[i as int])
        }
    }
}

/// `d` with `_` between groups of three digits counted from the right.
pub open spec fn grouped(d: Seq<char>) -> Seq<char> {
    grouped_prefix(d, d.len())
}

/// `s` right-aligned in a field of `width` characters, padded with spaces.
pub open spec fn pad_left(s: Seq<char>, width: nat) -> Seq<char> {
    if s.len() < width {
        Seq::new((width - s.len()) as nat, |i: int| ' ') + s
    } else {
        s
    }
}

/// What `format_n(n)` renders.
pub open spec fn formatted(n: nat) -> Seq<char> {
    pad_left(grouped(decimal(n)), TARGET_WIDTH as nat)
}

proof fn lemma_decimal_len_pos(n: nat)
    ensures
        decimal(n).len() >= 1,
    decreases n,
{
    if n >= 10 {
        lemma_decimal_len_pos(n / 10);
    }
}

/// The decimal digits of `n`, most significant first.
fn decimal_digits(n: usize) -> (r: Vec<char>)
    ensures
        r@ == decimal(n as nat),
{
    // Collect the digits least significant first, then reverse.
    let mut rev: Vec<char> = Vec::new();
    let mut m: usize = n;
    loop
        invariant_except_break
            m <= n,
            decimal(n as nat) == decimal(m as nat) + rev@.reverse(),
        ensures
            decimal(n as nat) =~= rev@.reverse(),
        decreases m,
    {
        let d = m % 10;
        let c = ((d as u8) + 48) as char;
        assert(c == digit_char(d as nat));
        if m < 10 {
            assert(decimal(m as nat) == seq![c]);
            let ghost old_rev = rev@;
            rev.push(c);
            assert(rev@.reverse() =~= seq![c] + old_rev.reverse());
            break;
        }
        let ghost old_rev = rev@;
        rev.push(c);
        assert(decimal(m as nat) == decimal((m / 10) as nat).push(c));
        assert(rev@.reverse() =~= seq![c] + old_rev.reverse());
        assert(decimal((m / 10) as nat).push(c) + old_rev.reverse() =~= decimal((m / 10) as nat) + rev@.reverse());
        m = m / 10;
    }
    assert(decimal(n as nat) =~= rev@.reverse());
    let mut out: Vec<char> = Vec::new();
    let len = rev.len();
    let mut i: usize = len;
    while i > 0
        invariant
            i <= len == rev@.len(),
            out@ =~= rev@.subrange(i as int, len as int).reverse(),
        decreases i,
    {
        i = i - 1;
        let ghost before = out@;
        out.push(rev[i]);
        assert(rev@.subrange(i as int, len as int) =~= seq![rev@[i as int]] + rev@.subrange(i + 1, len as int));
        assert(rev@.subrange(i as int, len as int).reverse() =~= rev@.subrange(i + 1, len as int).reverse().push(rev@[i as int]));
    }
    assert(rev@.subrange(0, len as int) =~= rev@);
    out
}

/// Renders `n` with `_` separating groups of three digits, right-aligned in a
/// field of `TARGET_WIDTH` characters (seven digits and two separators).
///
/// `format_n(1234)` is `"    1_234"`; a count with more than seven digits
/// is rendered in full, wider than the field.
pub fn format_n(n: usize) -> (r: String)
    ensures
        r@ == formatted(n as nat),
{
    let digits = decimal_digits(n);
    let len = digits.len();
    proof {
        lemma_decimal_len_pos(n as nat);
    }
    let mut body: Vec<char> = Vec::new();
    let mut i: usize = 0;
    while i < len
        invariant
            i <= len == digits@.len(),
            body@ == grouped_prefix(digits@, i as nat),
        decreases len - i,
    {
        if i > 0 && (len - i) % 3 == 0 {
            body.push('_');
        }
        body.push(digits[i]);
        i = i + 1;
    }
    let mut out = empty_string();
    let blen = body.len();
    let mut pad: usize = 0;
    if blen < TARGET_WIDTH {
        pad = TARGET_WIDTH - blen;
    }
    let mut j: usize = 0;
    while j < pad
        invariant
            j <= pad,
            out@ =~= Seq::new(j as nat, |k: int| ' '),
        decreases pad - j,
    {
        string_push(&mut out, ' ');
        j = j + 1;
    }
    let mut k: usize = 0;
    while k < blen
        invariant
            k <= blen == body@.len(),
            out@ =~= Seq::new(pad as nat, |x: int| ' ') + body@.subrange(0, k as int),
        decreases blen - k,
    {
        string_push(&mut out, body[k]);
        k = k + 1;
    }
    assert(body@.subrange(0, blen as int) =~= body@);
    out
}

/// The grouped form of `k` digits holds the digits and one separator per
/// full group of three after the first digit.
proof fn lemma_grouped_prefix_len(d: Seq<char>, k: nat)
    requires
        k <= d.len(),
    ensures
        grouped_prefix(d, k).len() == k + (if k == 0 {
            0
        } else {
            (d.len() - 1) / 3 - (d.len() - k) / 3
        }),
    decreases k,
{
    if k > 0 {
        let i = (k - 1) as nat;
        lemma_grouped_prefix_len(d, i);
        let n = d.len() as int;
        if i == 0 {
            assert((n - 1) / 3 - (n - 1) / 3 == 0);
        } else if (n - i) % 3 == 0 {
            assert((n - i) / 3 == (n - k) / 3 + 1) by {
                assert(n - k == (n - i) - 1);
            }
        } else {
            assert((n - i) / 3 == (n - k) / 3) by {
                assert(n - k == (n - i) - 1);
            }
        }
    }
}

proof fn lemma_decimal_len_bound(n: nat, digits: nat, bound: nat)
    requires
        digits >= 1,
        bound == power(10, digits),
        n < bound,
    ensures
        decimal(n).len() <= digits,
    decreases digits,
{
    if n >= 10 {
        assert(digits >= 2) by {
            if digits == 1 {
                assert(power(10, 1) == 10) by {
                    reveal_with_fuel(power, 2);
                }
            }
        }
        let smaller = power(10, (digits - 1) as nat);
        assert(bound == 10 * smaller);
        assert(n / 10 < smaller) by (nonlinear_arith)
            requires
                n < 10 * smaller,
        ;
        lemma_decimal_len_bound(n / 10, (digits - 1) as nat, smaller);
    }
}

/// Law: every count is rendered in at least `TARGET_WIDTH` characters, and
/// every count of at most `MAX_DIGITS` digits (below ten million) in exactly
/// `TARGET_WIDTH`, so that such counts line up in a column.
pub proof fn lemma_formatted_width(n: nat)
    ensures
        formatted(n).len() >= TARGET_WIDTH,
        n < 10_000_000 ==> formatted(n).len() == TARGET_WIDTH,
{
    let d = decimal(n);
    lemma_decimal_len_pos(n);
    lemma_grouped_prefix_len(d, d.len());
    if n < 10_000_000 {
        assert(power(10, 7) == 10_000_000) by {
            reveal_with_fuel(power, 8);
        }
        lemma_decimal_len_bound(n, 7, 10_000_000);
        assert(grouped(d).len() <= 9);
    }
}

} // verus!
