//! The capacity-bounded concurrent map primitive behind each namespace.
//!
//! Each namespace of the cache owns one `moka::sync::Cache<String, CacheValue>`.
//! moka's behaviour is taken on trust here, stated over three uninterpreted
//! names: `store_contents`, the key-to-value map a lookup consults;
//! `store_capacity`, the maximum entry count the store was created with; and
//! `store_synced`, whether the store's entry bookkeeping has caught up with
//! its contents. The contracts state only what moka's source shows:
//!
//! - `insert` is an upsert. While the resulting entry count stays within the
//!   capacity, every insert is admitted and nothing is evicted, so the
//!   contents afterwards are exactly the old contents plus the new binding.
//!   At or over capacity, moka's eviction policy may drop entries and may
//!   reject the inserted one, so only a submap relation is promised.
//! - `get` returns the value currently mapped to the key, and never invents
//!   one. Its internal maintenance can evict entries only when the store is
//!   over capacity.
//! - `sync` forces pending bookkeeping; afterwards `entry_count` equals the
//!   number of entries, as long as the store is within capacity (a store
//!   created with capacity zero skips maintenance entirely, which is why the
//!   count is only promised within capacity).

use vstd::prelude::*;

use crate::values::{CacheValue, CacheValueView};

verus! {

#[verifier::external_type_specification]
#[verifier::external_body]
#[verifier::reject_recursive_types(K)]
#[verifier::reject_recursive_types(V)]
#[verifier::reject_recursive_types(S)]
pub struct ExMokaCache<K, V, S>(moka::sync::Cache<K, V, S>);

/// The key-to-value map a lookup of the store consults.
pub uninterp spec fn store_contents(c: moka::sync::Cache<String, CacheValue>) -> Map<
    Seq<char>,
    CacheValueView,
>;

/// The maximum entry count the store was created with.
pub uninterp spec fn store_capacity(c: moka::sync::Cache<String, CacheValue>) -> u64;

/// Whether the store's entry bookkeeping has caught up with its contents.
pub uninterp spec fn store_synced(c: moka::sync::Cache<String, CacheValue>) -> bool;

/// The contents of a store that holds nothing.
pub open spec fn empty_contents() -> Map<Seq<char>, CacheValueView> {
    Map::empty()
}

/// Every binding of `m1` stands unchanged in `m2`: eviction may drop entries,
/// but never adds one or alters a kept value.
pub open spec fn kept_in(
    m1: Map<Seq<char>, CacheValueView>,
    m2: Map<Seq<char>, CacheValueView>,
) -> bool {
    forall|k: Seq<char>| #[trigger] m1.contains_key(k) ==> m2.contains_key(k) && m1[k] == m2[k]
}

/// Relies on `moka::sync::Cache::new`: a fresh store is empty, remembers the
/// given maximum capacity, and has nothing pending.
#[verifier::external_body]
pub(crate) fn store_new(capacity: u64) -> (c: moka::sync::Cache<String, CacheValue>)
    ensures
        store_contents(c) == empty_contents(),
        store_contents(c).dom().finite(),
        store_capacity(c) == capacity,
        store_synced(c),
{
    moka::sync::Cache::new(capacity)
}

/// Relies on `moka::sync::Cache::get`: returns the value currently mapped to
/// the key, or nothing. Within capacity the store is left untouched; over
/// capacity, internal maintenance may evict entries, but never adds or
/// changes one.
#[verifier::external_body]
pub(crate) fn store_get(c: &mut moka::sync::Cache<String, CacheValue>, key: &str) -> (r: Option<
    CacheValue,
>)
    ensures
        store_capacity(*final(c)) == store_capacity(*old(c)),
        store_contents(*final(c)).dom().finite(),
        kept_in(store_contents(*final(c)), store_contents(*old(c))),
        (r matches Some(v) ==> store_contents(*old(c)).contains_key(key@)
            && store_contents(*old(c))[key@] == v@),
        (r is None ==> !store_contents(*final(c)).contains_key(key@)),
        store_contents(*old(c)).len() <= store_capacity(*old(c)) ==> {
            &&& store_contents(*final(c)) == store_contents(*old(c))
            &&& store_contents(*old(c)).contains_key(key@) ==> (r matches Some(v) && v@
                == store_contents(*old(c))[key@])
            &&& !store_contents(*old(c)).contains_key(key@) ==> r is None
        },
{
    c.get(key)
}

/// Relies on `moka::sync::Cache::insert`: an unconditional upsert. While the
/// resulting entry count stays within capacity the new binding is admitted
/// and nothing is evicted; otherwise the eviction policy may drop entries,
/// including the new one, but never adds or changes any other binding.
#[verifier::external_body]
pub(crate) fn store_insert(c: &mut moka::sync::Cache<String, CacheValue>, key: &str, value: CacheValue)
    ensures
        store_capacity(*final(c)) == store_capacity(*old(c)),
        store_contents(*final(c)).dom().finite(),
        kept_in(store_contents(*final(c)), store_contents(*old(c)).insert(key@, value@)),
        store_contents(*old(c)).insert(key@, value@).len() <= store_capacity(*old(c))
            ==> store_contents(*final(c)) == store_contents(*old(c)).insert(key@, value@),
{
    c.insert(key.to_string(), value)
}

/// Relies on `moka::sync::ConcurrentCacheExt::sync`: runs the pending
/// bookkeeping. Within capacity nothing is evicted, so the contents are kept
/// and the bookkeeping is caught up afterwards; over capacity, eviction may
/// drop entries.
#[verifier::external_body]
pub(crate) fn store_sync(c: &mut moka::sync::Cache<String, CacheValue>)
    ensures
        store_capacity(*final(c)) == store_capacity(*old(c)),
        store_contents(*final(c)).dom().finite(),
        kept_in(store_contents(*final(c)), store_contents(*old(c))),
        store_contents(*old(c)).len() <= store_capacity(*old(c)) ==> {
            &&& store_contents(*final(c)) == store_contents(*old(c))
            &&& store_synced(*final(c))
        },
{
    moka::sync::ConcurrentCacheExt::sync(c)
}

/// Relies on `moka::sync::Cache::entry_count`: once the bookkeeping is caught
/// up and the store is within capacity, the count is exactly the number of
/// entries; otherwise it is only an estimate and nothing is promised.
#[verifier::external_body]
pub(crate) fn store_entry_count(c: &moka::sync::Cache<String, CacheValue>) -> (n: u64)
    ensures
        store_synced(*c) && store_contents(*c).len() <= store_capacity(*c) ==> n
            == store_contents(*c).len(),
{
    c.entry_count()
}

} // verus!
