use vstd::prelude::*;

verus! {

/// Trait for map implementations that support concurrent access.
/// Unlike the `&mut self` traits, this trait uses `&self`
/// since concurrent maps use interior mutability.
///
/// What a concurrent map holds changes behind shared references, so the
/// trait states no model of its entries. It states instead which calls a
/// map has been handed: each method ensures the matching `received_*`
/// predicate for its arguments. An implementation that records no calls
/// keeps the default bodies, and then the predicates claim nothing of it.
pub trait SyncBenchMap<K, V>: Send + Sync + Sized {
    /// Whether this map has been handed a lookup of `key`.
    open spec fn received_get(&self, key: K) -> bool {
        true
    }

    /// Whether this map has been handed an insert of `value` under `key`.
    open spec fn received_insert(&self, key: K, value: V) -> bool {
        true
    }

    /// Whether this map has been handed a removal of `key`.
    open spec fn received_remove(&self, key: K) -> bool {
        true
    }

    fn new() -> Self;

    fn insert(&self, key: K, value: V)
        ensures
            self.received_insert(key, value),
    ;

    fn get_cloned(&self, key: &K) -> (r: Option<V>)
        ensures
            self.received_get(*key),
    ;

    fn remove(&self, key: &K) -> (r: Option<V>)
        ensures
            self.received_remove(*key),
    ;
}

} // verus!
