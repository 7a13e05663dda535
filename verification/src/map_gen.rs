//! Building the data of a benchmark map from key and value generators.

use vstd::prelude::*;
use crate::data::data_gen::DataGen;
use crate::map_data::{clone_is_copy, keys_of, MapData};
use crate::sorting::{ascending, sort_vec, sortable};

verus! {

/// The values of a sequence of pairs.
pub open spec fn values_of<K, V>(s: Seq<(K, V)>) -> Seq<V> {
    s.map_values(|p: (K, V)| p.1)
}

/// Two sequences with the same multiset of items hold the same items, and
/// one has no duplicates exactly when the other has none.
pub proof fn lemma_permutation_items<T>(s: Seq<T>, t: Seq<T>)
    requires
        s.to_multiset() == t.to_multiset(),
    ensures
        forall|x: T| s.contains(x) <==> t.contains(x),
        s.no_duplicates() ==> t.no_duplicates(),
        s.len() == t.len(),
{
    s.to_multiset_ensures();
    t.to_multiset_ensures();
    assert forall|x: T| s.contains(x) <==> t.contains(x) by {
        let c = s.to_multiset().count(x);
        assert(c == t.to_multiset().count(x));
        assert(s.contains(x) <==> c > 0);
        assert(t.contains(x) <==> t.to_multiset().count(x) > 0);
    }
    if s.no_duplicates() {
        s.lemma_multiset_has_no_duplicates();
        t.lemma_multiset_has_no_duplicates_conv();
    }
}

/// The pairs `(keys[i], values[i])`, in order.
pub(crate) fn pair_up<K, V>(keys: Vec<K>, values: Vec<V>) -> (r: Vec<(K, V)>)
    requires
        keys@.len() == values@.len(),
    ensures
        r@.len() == keys@.len(),
        keys_of(r@) == keys@,
        values_of(r@) == values@,
{
    let ghost keys1 = keys@;
    let ghost values1 = values@;
    let n = keys.len();
    let mut keys = keys;
    let mut values = values;
    // Pair keys and values from the back, then restore the order.
    let mut reversed: Vec<(K, V)> = Vec::new();
    while keys.len() > 0
        invariant
            keys@.len() == values@.len(),
            keys1.len() == values1.len() == n,
            keys@ == keys1.take(keys@.len() as int),
            values@ == values1.take(values@.len() as int),
            reversed@.len() == n - keys@.len(),
            forall|j: int|
                0 <= j < reversed@.len() ==> #[trigger] reversed@[j] == (
                    keys1[n - 1 - j],
                    values1[n - 1 - j],
                ),
        decreases keys@.len(),
    {
        let k = keys.pop().unwrap();
        let v = values.pop().unwrap();
        reversed.push((k, v));
    }
    let mut entries: Vec<(K, V)> = Vec::new();
    while reversed.len() > 0
        invariant
            reversed@.len() + entries@.len() == n,
            keys1.len() == values1.len() == n,
            forall|j: int|
                0 <= j < reversed@.len() ==> #[trigger] reversed@[j] == (
                    keys1[n - 1 - j],
                    values1[n - 1 - j],
                ),
            forall|j: int|
                0 <= j < entries@.len() ==> #[trigger] entries@[j] == (keys1[j], values1[j]),
        decreases reversed@.len(),
    {
        let p = reversed.pop().unwrap();
        entries.push(p);
    }
    assert(keys_of(entries@) =~= keys1);
    assert(values_of(entries@) =~= values1);
    entries
}

pub struct MapGen;

impl MapGen {
    /// `entry_count` entries with keys from `key_gen` and values from
    /// `value_gen`; as existing keys, the first `existing_key_count` entry keys
    /// (before sorting); as missing keys, `missing_key_count` keys that no
    /// entry has. Keys, values and missing keys are distinct where their
    /// generator yields distinct items. With `sort_keys`, the entry keys, the
    /// existing keys and the missing keys are each sorted in ascending order.
    pub fn generate<Kgen, Vgen, K, V>(
        key_gen: Kgen,
        value_gen: Vgen,
        entry_count: usize,
        existing_key_count: usize,
        missing_key_count: usize,
        sort_keys: bool,
    ) -> (r: MapData<K, V>) where
        Kgen: DataGen<Output = K>,
        Vgen: DataGen<Output = V>,
        K: Clone + Ord,
        V: Clone,
    
        requires
            existing_key_count <= entry_count,
            key_gen.can_generate(entry_count as nat, Seq::empty()),
            forall|avoid: Seq<K>|
                avoid.len() == entry_count && (key_gen.yields_distinct() ==> avoid.no_duplicates())
                    ==> #[trigger] key_gen.can_generate(
                    missing_key_count as nat,
                    avoid,
                ),
            value_gen.can_generate(entry_count as nat, Seq::empty()),
            sort_keys ==> sortable::<K>(),
        ensures
            r.entry_seq().len() == entry_count,
            key_gen.yields_distinct() ==> keys_of(r.entry_seq()).no_duplicates(),
            value_gen.yields_distinct() ==> values_of(r.entry_seq()).no_duplicates(),
            r.existing_seq().len() == existing_key_count,
            r.missing_seq().len() == missing_key_count,
            key_gen.yields_distinct() ==> r.missing_seq().no_duplicates(),
            forall|i: int|
                0 <= i < r.missing_seq().len() ==> !keys_of(r.entry_seq()).contains(
                    #[trigger] r.missing_seq()[i],
                ),
            clone_is_copy::<K>() ==> r.lookups_consistent(),
            clone_is_copy::<K>() && key_gen.yields_distinct() ==> r.well_formed()
                && r.existing_seq().no_duplicates(),
            clone_is_copy::<K>() && !sort_keys ==> r.existing_seq() == keys_of(r.entry_seq()).take(
                existing_key_count as int,
            ),
            sort_keys ==> ascending(keys_of(r.entry_seq())) && ascending(r.existing_seq())
                && ascending(r.missing_seq()),
    {
        let mut entry_keys = key_gen.generate(entry_count);
        let mut existing_keys: Vec<K> = Vec::new();
        let mut i: usize = 0;
        while i < existing_key_count
            invariant
                existing_key_count <= entry_keys@.len() == entry_count,
                i <= existing_key_count,
                existing_keys@.len() == i,
                forall|j: int|
                    0 <= j < i ==> cloned(entry_keys@[j], #[trigger] existing_keys@[j]),
            decreases existing_key_count - i,
        {
            existing_keys.push(entry_keys[i].clone());
            i = i + 1;
        }
        let mut missing_keys = key_gen.generate_avoiding(missing_key_count, entry_keys.as_slice());
        let ghost keys0 = entry_keys@;
        let ghost existing0 = existing_keys@;
        let ghost missing0 = missing_keys@;
        proof {
            if clone_is_copy::<K>() && key_gen.yields_distinct() {
                assert(existing0 =~= keys0.take(existing_key_count as int));
                assert forall|a: int, b: int|
                    0 <= a < existing0.len() && 0 <= b < existing0.len() && a != b implies existing0[a]
                    != existing0[b] by {
                    assert(existing0[a] == keys0[a]);
                    assert(existing0[b] == keys0[b]);
                }
            }
        }
        if sort_keys {
            sort_vec(&mut entry_keys);
            sort_vec(&mut existing_keys);
            sort_vec(&mut missing_keys);
        }
        proof {
            lemma_permutation_items(keys0, entry_keys@);
            lemma_permutation_items(existing0, existing_keys@);
            lemma_permutation_items(missing0, missing_keys@);
            if clone_is_copy::<K>() {
                assert forall|j: int| 0 <= j < existing_keys@.len() implies entry_keys@.contains(
                    #[trigger] existing_keys@[j],
                ) by {
                    assert(existing0.contains(existing_keys@[j]));
                    let k = choose|k: int| 0 <= k < existing0.len() && existing0[k] == existing_keys@[j];
                    assert(existing0[k] == keys0[k]);
                    assert(keys0.contains(existing0[k]));
                }
            }
            assert forall|j: int| 0 <= j < missing_keys@.len() implies !entry_keys@.contains(
                #[trigger] missing_keys@[j],
            ) by {
                assert(missing0.contains(missing_keys@[j]));
                let k = choose|k: int| 0 <= k < missing0.len() && missing0[k] == missing_keys@[j];
                assert(!keys0.contains(missing0[k]));
            }
        }
        let values = value_gen.generate(entry_count);
        let entries = pair_up(entry_keys, values);
        MapData::new(entries, existing_keys, missing_keys)
    }
}

} // verus!
