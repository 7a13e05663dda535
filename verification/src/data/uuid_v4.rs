use vstd::prelude::*;
use crate::data::data_gen::DataGen;
use crate::key_set::{
    lemma_run_covered, wide_key_set_contains, wide_key_set_contents, wide_key_set_from,
    wide_key_set_insert, WideKeySet,
};
use rand::rngs::ThreadRng;

verus! {

/// The bits of a UUID (read as a big-endian `u128`) that hold its version
/// and variant.
pub const UUID_FORMAT_MASK: u128 = 0xF000C000000000000000;

/// The version and variant bits of a random (version 4, RFC 4122) UUID.
pub const UUID_V4_BITS: u128 = 0x40008000000000000000;

/// The number of UUIDs of the form `UUID_V4_BITS + k` with `k` below the
/// variant bits; they all carry the version 4 format.
pub const UUID_V4_RUN: u128 = 0x4000000000000000;

/// Whether `u` carries the version 4, RFC 4122 version and variant bits.
pub open spec fn is_uuid_v4(u: u128) -> bool {
    u & UUID_FORMAT_MASK == UUID_V4_BITS
}

/// A random UUID (`uuid::Uuid::new_v4`), as its big-endian `u128`.
///
/// Trusted: `new_v4` masks random bits and sets the version 4 and RFC 4122
/// variant bits, as its source shows; the other bits are left open.
#[verifier::external_body]
fn random_uuid_v4() -> (r: u128)
    ensures
        is_uuid_v4(r),
{
    uuid::Uuid::new_v4().as_u128()
}

/// `UUID_V4_BITS + k` is a version 4 UUID for every `k` below `UUID_V4_RUN`.
proof fn lemma_run_is_v4(k: u128)
    requires
        k < UUID_V4_RUN,
    ensures
        is_uuid_v4((UUID_V4_BITS + k) as u128),
{
    assert(k < 0x4000000000000000u128 ==> (0x40008000000000000000u128 + k) as u128
        & 0xF000C000000000000000u128 == 0x40008000000000000000u128) by (bit_vector);
}

/// Random version 4 UUIDs, each held as its big-endian `u128`.
#[derive(Clone, Copy)]
pub struct UuidV4DataGen;

impl DataGen for UuidV4DataGen {
    type Output = u128;

    /// The items of one call are distinct.
    open spec fn yields_distinct(&self) -> bool {
        true
    }

    /// The outputs and the UUIDs to avoid are fewer than the version 4 UUIDs
    /// of the run `UUID_V4_BITS + k` (a bound far above what memory holds).
    open spec fn can_generate(&self, count: nat, avoid: Seq<u128>) -> bool {
        count + avoid.len() <= UUID_V4_RUN
    }

    /// Draws UUIDs with `uuid::Uuid::new_v4`, discarding those in `avoid`
    /// and those drawn before. After `u64::MAX` discarded draws in a row, the
    /// first free UUID of the run `UUID_V4_BITS + k` is used instead.
    fn generate_unique(&self, count: usize, avoid: &[u128], rng: &mut ThreadRng) -> (r: Vec<u128>)
        ensures
            forall|i: int| 0 <= i < r@.len() ==> is_uuid_v4(#[trigger] r@[i]),
    {
        let mut taken = wide_key_set_from(avoid);
        let mut out: Vec<u128> = Vec::new();
        let mut budget: u64 = u64::MAX;
        while out.len() < count
            invariant
                count + avoid@.len() <= UUID_V4_RUN,
                out@.len() <= count,
                out@.no_duplicates(),
                forall|i: int| 0 <= i < out@.len() ==> !avoid@.contains(#[trigger] out@[i]),
                forall|i: int| 0 <= i < out@.len() ==> is_uuid_v4(#[trigger] out@[i]),
                wide_key_set_contents(taken) == avoid@.to_set() + out@.to_set(),
                wide_key_set_contents(taken).finite(),
                wide_key_set_contents(taken).len() <= avoid@.len() + out@.len(),
            decreases count - out@.len(), budget,
        {
            let candidate = if budget > 0 {
                budget = budget - 1;
                random_uuid_v4()
            } else {
                first_free_in_run(&taken)
            };
            if !wide_key_set_contains(&taken, candidate) {
                let ghost before = out@;
                wide_key_set_insert(&mut taken, candidate);
                out.push(candidate);
                budget = u64::MAX;
                proof {
                    before.lemma_push_to_set_commute(candidate);
                    assert(!before.contains(candidate));
                    assert(!avoid@.contains(candidate));
                    assert(wide_key_set_contents(taken) =~= avoid@.to_set() + out@.to_set());
                    assert forall|i: int, j: int|
                        0 <= i < out@.len() && 0 <= j < out@.len() && i != j implies out@[i]
                        != out@[j] by {
                        if i < before.len() && j < before.len() {
                        } else if i == before.len() {
                            assert(before.contains(out@[j]));
                        } else {
                            assert(before.contains(out@[i]));
                        }
                    }
                }
            }
        }
        out
    }
}

/// The first UUID of the run `UUID_V4_BITS + k` that `s` does not hold; one
/// exists because `s` holds fewer keys than the run does.
fn first_free_in_run(s: &WideKeySet) -> (r: u128)
    requires
        wide_key_set_contents(*s).finite(),
        wide_key_set_contents(*s).len() < UUID_V4_RUN,
    ensures
        !wide_key_set_contents(*s).contains(r),
        is_uuid_v4(r),
{
    let mut k: u128 = 0;
    while wide_key_set_contains(s, UUID_V4_BITS + k)
        invariant
            wide_key_set_contents(*s).finite(),
            wide_key_set_contents(*s).len() < UUID_V4_RUN,
            k <= wide_key_set_contents(*s).len(),
            forall|x: u128|
                UUID_V4_BITS <= (x as nat) < UUID_V4_BITS + k ==> wide_key_set_contents(
                    *s,
                ).contains(x),
        decreases UUID_V4_RUN - k,
    {
        proof {
            lemma_run_covered(wide_key_set_contents(*s), UUID_V4_BITS as nat, (k + 1) as nat);
        }
        k = k + 1;
    }
    proof {
        lemma_run_is_v4(k);
    }
    UUID_V4_BITS + k
}

} // verus!
