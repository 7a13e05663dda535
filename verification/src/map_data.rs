//! The entries of a benchmark map and the keys that its lookups use.

use vstd::prelude::*;
use crate::data::data_gen::DataGen;
use crate::map_gen::{pair_up, values_of};
use crate::maps::benchmap::{BenchMapMutInsert, BenchMapNew, BenchMapNewWithHasher, BenchMapView};
use crate::sorting::{ascending, sortable};

verus! {

/// The map that inserting the pairs of `s` in order into an empty map gives.
pub open spec fn map_of<K, V>(s: Seq<(K, V)>) -> Map<K, V>
    decreases s.len(),
{
    if s.len() == 0 {
        Map::empty()
    } else {
        map_of(s.drop_last()).insert(s.last().0, s.last().1)
    }
}

/// The keys of a sequence of pairs.
pub open spec fn keys_of<K, V>(s: Seq<(K, V)>) -> Seq<K> {
    s.map_values(|p: (K, V)| p.0)
}

/// Whether `b` is a pair-by-pair clone of `a`.
pub open spec fn entry_clones<K: Clone, V: Clone>(a: Seq<(K, V)>, b: Seq<(K, V)>) -> bool {
    &&& a.len() == b.len()
    &&& forall|i: int| 0 <= i < a.len() ==> cloned(a[i].0, #[trigger] b[i].0) && cloned(a[i].1, b[i].1)
}

/// Whether cloning a `T` always gives back an equal value (true of the
/// integer types).
pub open spec fn clone_is_copy<T: Clone>() -> bool {
    forall|a: T, b: T| cloned(a, b) ==> a == b
}

/// The keys of the map built from `s` are the keys of `s`.
pub proof fn lemma_map_of_keys<K, V>(s: Seq<(K, V)>)
    ensures
        forall|k: K| #[trigger] map_of(s).contains_key(k) <==> keys_of(s).contains(k),
    decreases s.len(),
{
    if s.len() > 0 {
        lemma_map_of_keys(s.drop_last());
        assert(keys_of(s) =~= keys_of(s.drop_last()).push(s.last().0));
        let prev = s.drop_last();
        assert(map_of(s) == map_of(prev).insert(s.last().0, s.last().1));
        assert forall|k: K| #[trigger] map_of(s).contains_key(k) <==> keys_of(s).contains(k) by {
            assert(keys_of(s) == keys_of(prev).push(s.last().0));
            if k == s.last().0 {
                assert(keys_of(s)[keys_of(s).len() - 1] == k);
            } else {
                if keys_of(s).contains(k) {
                    let i = choose|i: int| 0 <= i < keys_of(s).len() && keys_of(s)[i] == k;
                    assert(keys_of(prev)[i] == k);
                }
                if keys_of(prev).contains(k) {
                    let i = choose|i: int| 0 <= i < keys_of(prev).len() && keys_of(prev)[i] == k;
                    assert(keys_of(s)[i] == k);
                }
            }
        }
    } else {
        assert(keys_of(s) =~= Seq::<K>::empty());
    }
}

/// Law: a map created from map data whose existing keys are entry keys and
/// whose missing keys are not holds every existing key and no missing key,
/// when cloning a key gives back an equal key.
pub proof fn lemma_created_map_lookups<K: Clone, V: Clone>(data: MapData<K, V>, c: Seq<(K, V)>)
    requires
        data.lookups_consistent(),
        entry_clones(data.entry_seq(), c),
        clone_is_copy::<K>(),
    ensures
        forall|i: int|
            0 <= i < data.existing_seq().len() ==> map_of(c).contains_key(
                #[trigger] data.existing_seq()[i],
            ),
        forall|i: int|
            0 <= i < data.missing_seq().len() ==> !map_of(c).contains_key(
                #[trigger] data.missing_seq()[i],
            ),
{
    lemma_map_of_keys(c);
    assert(keys_of(c) =~= keys_of(data.entry_seq())) by {
        assert forall|i: int| 0 <= i < c.len() implies keys_of(c)[i] == keys_of(data.entry_seq())[i] by {
            assert(cloned(data.entry_seq()[i].0, c[i].0));
        }
    }
}

/// The entries of a benchmark map, the keys to use for lookups that hit and
/// the keys to use for lookups that miss.
pub struct MapData<K, V> {
    entries: Vec<(K, V)>,
    existing_keys: Vec<K>,
    missing_keys: Vec<K>,
}

impl<K, V> MapData<K, V> {
    /// The entries, in insertion order.
    pub closed spec fn entry_seq(&self) -> Seq<(K, V)> {
        self.entries@
    }

    /// The keys that lookups expect to find.
    pub closed spec fn existing_seq(&self) -> Seq<K> {
        self.existing_keys@
    }

    /// The keys that lookups expect to miss.
    pub closed spec fn missing_seq(&self) -> Seq<K> {
        self.missing_keys@
    }

    /// Whether the entries have distinct keys, every existing key is an entry
    /// key and no missing key is.
    pub open spec fn well_formed(&self) -> bool {
        &&& keys_of(self.entry_seq()).no_duplicates()
        &&& self.lookups_consistent()
    }

    /// Whether every existing key is an entry key and no missing key is.
    pub open spec fn lookups_consistent(&self) -> bool {
        &&& forall|i: int|
            0 <= i < self.existing_seq().len() ==> keys_of(self.entry_seq()).contains(
                #[trigger] self.existing_seq()[i],
            )
        &&& forall|i: int|
            0 <= i < self.missing_seq().len() ==> !keys_of(self.entry_seq()).contains(
                #[trigger] self.missing_seq()[i],
            )
    }

    /// Map data whose `entry_count` keys come from `key_gen`, `unique_key_count`
    /// of them drawn and the rest repeating them (see
    /// `DataGen::generate_with_repeats`), whose values come from `value_gen`,
    /// whose existing keys are (clones of) the entry keys, and whose missing
    /// keys are as many keys from `key_gen` that no entry has. Keys, values
    /// and missing keys are distinct where their generator yields distinct
    /// items. The
    /// share of distinct keys that callers start from is rounded to
    /// `unique_key_count` by them.
    pub fn from_generators<KeyGen, ValueGen>(
        key_gen: KeyGen,
        value_gen: ValueGen,
        entry_count: usize,
        unique_key_count: usize,
        sorted_keys: bool,
    ) -> (r: Self) where
        KeyGen: DataGen<Output = K>,
        ValueGen: DataGen<Output = V>,
        K: Clone + Ord,
        V: Clone,
    
        requires
            entry_count > 0 ==> 1 <= unique_key_count <= entry_count,
            entry_count > 0 ==> key_gen.can_generate(unique_key_count as nat, Seq::empty()),
            forall|avoid: Seq<K>|
                avoid.len() == entry_count && (clone_is_copy::<K>() ==> avoid.to_set().len()
                    <= unique_key_count) ==> #[trigger] key_gen.can_generate(entry_count as nat, avoid),
            value_gen.can_generate(entry_count as nat, Seq::empty()),
            sorted_keys ==> sortable::<K>(),
        ensures
            r.entry_seq().len() == entry_count,
            value_gen.yields_distinct() ==> values_of(r.entry_seq()).no_duplicates(),
            r.existing_seq().len() == entry_count,
            r.missing_seq().len() == entry_count,
            key_gen.yields_distinct() ==> r.missing_seq().no_duplicates(),
            forall|i: int|
                0 <= i < r.missing_seq().len() ==> !r.existing_seq().contains(
                    #[trigger] r.missing_seq()[i],
                ),
            clone_is_copy::<K>() ==> r.existing_seq() == keys_of(r.entry_seq()),
            clone_is_copy::<K>() ==> r.lookups_consistent(),
            clone_is_copy::<K>() ==> keys_of(r.entry_seq()).to_set().len() <= (if entry_count == 0 {
                0
            } else {
                unique_key_count as nat
            }),
            clone_is_copy::<K>() && key_gen.yields_distinct() ==> keys_of(r.entry_seq()).to_set().len()
                == (if entry_count == 0 {
                0
            } else {
                unique_key_count as nat
            }),
            entry_count > 0 && unique_key_count < entry_count && sorted_keys ==> ascending(
                keys_of(r.entry_seq()),
            ),
    {
        let entry_keys = key_gen.generate_with_repeats(entry_count, unique_key_count, sorted_keys);
        let existing_keys = entry_keys.clone();
        let ghost keys0 = entry_keys@;
        proof {
            if clone_is_copy::<K>() {
                assert forall|i: int| 0 <= i < existing_keys@.len() implies existing_keys@[i] == keys0[i] by {
                    assert(cloned(keys0[i], existing_keys@[i]));
                }
                assert(existing_keys@ =~= keys0);
                if entry_count == 0 {
                    assert(keys0.to_set() =~= Set::<K>::empty());
                }
            }
        }
        let missing_keys = key_gen.generate_avoiding(existing_keys.len(), existing_keys.as_slice());
        let values = value_gen.generate(entry_count);
        let entries = pair_up(entry_keys, values);
        let r = Self::new(entries, existing_keys, missing_keys);
        proof {
            if clone_is_copy::<K>() {
                assert forall|i: int| 0 <= i < r.existing_seq().len() implies r.existing_seq()[i] == keys0[i] by {
                    assert(cloned(keys0[i], r.existing_seq()[i]));
                }
                assert(r.existing_seq() =~= keys0);
                assert forall|i: int| 0 <= i < r.existing_seq().len() implies keys_of(r.entry_seq()).contains(
                    #[trigger] r.existing_seq()[i],
                ) by {
                    assert(keys_of(r.entry_seq())[i] == r.existing_seq()[i]);
                }
            }
        }
        r
    }

    pub fn new(entries: Vec<(K, V)>, existing_keys: Vec<K>, missing_keys: Vec<K>) -> (r: Self)
        ensures
            r.entry_seq() == entries@,
            r.existing_seq() == existing_keys@,
            r.missing_seq() == missing_keys@,
    {
        Self { entries, existing_keys, missing_keys }
    }

    /// A new map of type `M` holding (clones of) the entries, inserted in
    /// order.
    pub fn create_map<M>(&self) -> (r: M) where
        K: Clone,
        V: Clone,
        M: BenchMapNew<K, V> + BenchMapMutInsert<K, V>,
    
        ensures
            M::obeys_model() ==> exists|c: Seq<(K, V)>|
                entry_clones(self.entry_seq(), c) && r.entries() == map_of(c),
    {
        let map = M::new();
        self.fill(map)
    }

    /// A new map of type `M` that hashes with `hasher`, holding (clones of)
    /// the entries, inserted in order.
    pub fn create_map_with_hasher<M, H>(&self, hasher: H) -> (r: M) where
        K: Clone,
        V: Clone,
        M: BenchMapNewWithHasher<K, V, H> + BenchMapMutInsert<K, V>,
    
        ensures
            M::obeys_model() ==> exists|c: Seq<(K, V)>|
                entry_clones(self.entry_seq(), c) && r.entries() == map_of(c),
    {
        let map = M::new_with_hasher(hasher);
        self.fill(map)
    }

    /// Inserts (clones of) the entries into `map`, in order.
    fn fill<M>(&self, map: M) -> (r: M) where
        K: Clone,
        V: Clone,
        M: BenchMapMutInsert<K, V>,
    
        requires
            M::obeys_model() ==> map.entries() == Map::<K, V>::empty(),
        ensures
            M::obeys_model() ==> exists|c: Seq<(K, V)>|
                entry_clones(self.entry_seq(), c) && r.entries() == map_of(c),
    {
        let mut map = map;
        let ghost mut c: Seq<(K, V)> = Seq::empty();
        let n = self.entries.len();
        let mut i: usize = 0;
        while i < n
            invariant
                n == self.entries@.len(),
                i <= n,
                c.len() == i,
                forall|j: int|
                    0 <= j < i ==> cloned(self.entries@[j].0, #[trigger] c[j].0) && cloned(
                        self.entries@[j].1,
                        c[j].1,
                    ),
                M::obeys_model() ==> map.entries() == map_of(c),
            decreases n - i,
        {
            let key = self.entries[i].0.clone();
            let value = self.entries[i].1.clone();
            let ghost prev = c;
            proof {
                c = c.push((key, value));
                assert(c.drop_last() =~= prev);
            }
            map.insert(key, value);
            i = i + 1;
        }
        assert(self.entry_seq() == self.entries@);
        assert(entry_clones(self.entry_seq(), c));
        map
    }

    pub fn existing_keys(&self) -> (r: &Vec<K>)
        ensures
            r@ == self.existing_seq(),
    {
        &self.existing_keys
    }

    pub fn missing_keys(&self) -> (r: &Vec<K>)
        ensures
            r@ == self.missing_seq(),
    {
        &self.missing_keys
    }
}

} // verus!
