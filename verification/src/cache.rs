//! The three-namespace index cache façade.
//!
//! An [`IndexCache`] owns one capacity-bounded store per namespace — scalar
//! indexes, vector indexes, and per-dataset-version metadata listings — and
//! one set of hit/miss counters shared by the three. A lookup consults one
//! namespace's store and records exactly one hit or miss; an insert is an
//! unconditional upsert and records nothing. Metadata entries are keyed by a
//! composite `"{dataset}:{version}"` string that only the cache itself
//! builds.
//!
//! The contracts are exact while a namespace stays within its capacity: a
//! lookup then returns precisely what the contents map holds, and an insert
//! extends the contents by precisely one binding. At or over capacity the
//! store's eviction policy may drop entries, and the contracts promise a
//! submap relation instead.

use vstd::prelude::*;

use crate::keys::{metadata_key, metadata_key_spec};
use crate::stats::CacheStats;
use crate::store::{
    empty_contents, kept_in, store_capacity, store_contents, store_entry_count, store_get,
    store_insert, store_new, store_sync,
};
use crate::values::{CacheValue, CacheValueView, IndexDescriptor, ScalarIndexHandle,
    VectorIndexHandle};

verus! {

/// What a lookup of `k` in scalar-namespace contents `m` yields.
pub open spec fn lookup_scalar(m: Map<Seq<char>, CacheValueView>, k: Seq<char>) -> Option<
    ScalarIndexHandle,
> {
    if m.contains_key(k) {
        match m[k] {
            CacheValueView::Scalar(h) => Some(h),
            _ => None,
        }
    } else {
        None
    }
}

/// What a lookup of `k` in vector-namespace contents `m` yields.
pub open spec fn lookup_vector(m: Map<Seq<char>, CacheValueView>, k: Seq<char>) -> Option<
    VectorIndexHandle,
> {
    if m.contains_key(k) {
        match m[k] {
            CacheValueView::Vector(h) => Some(h),
            _ => None,
        }
    } else {
        None
    }
}

/// What a lookup of `k` in metadata-namespace contents `m` yields.
pub open spec fn lookup_metadata(m: Map<Seq<char>, CacheValueView>, k: Seq<char>) -> Option<
    Seq<crate::values::IndexDescriptorView>,
> {
    if m.contains_key(k) {
        match m[k] {
            CacheValueView::Metadata(ds) => Some(ds),
            _ => None,
        }
    } else {
        None
    }
}

/// A capacity-bounded cache of loaded index structures, split into a scalar,
/// a vector and a metadata namespace, with shared hit/miss accounting.
pub struct IndexCache {
    scalar_cache: moka::sync::Cache<String, CacheValue>,
    vector_cache: moka::sync::Cache<String, CacheValue>,
    metadata_cache: moka::sync::Cache<String, CacheValue>,
    cache_stats: CacheStats,
}

impl IndexCache {
    /// The contents of the scalar namespace.
    pub closed spec fn scalar_contents(self) -> Map<Seq<char>, CacheValueView> {
        store_contents(self.scalar_cache)
    }

    /// The contents of the vector namespace.
    pub closed spec fn vector_contents(self) -> Map<Seq<char>, CacheValueView> {
        store_contents(self.vector_cache)
    }

    /// The contents of the metadata namespace.
    pub closed spec fn metadata_contents(self) -> Map<Seq<char>, CacheValueView> {
        store_contents(self.metadata_cache)
    }

    /// The hit/miss counters.
    pub closed spec fn stats(self) -> CacheStats {
        self.cache_stats
    }

    /// The maximum entry count each namespace was created with.
    pub closed spec fn capacity(self) -> u64 {
        store_capacity(self.scalar_cache)
    }

    /// All three namespaces share the one capacity parameter.
    pub closed spec fn caps_consistent(self) -> bool {
        &&& store_capacity(self.vector_cache) == store_capacity(self.scalar_cache)
        &&& store_capacity(self.metadata_cache) == store_capacity(self.scalar_cache)
    }

    /// Well-formedness: each namespace's contents are finite and hold only
    /// that namespace's kind of value, the capacities agree, and the lookup
    /// counters' sum stays representable.
    pub open spec fn wf(self) -> bool {
        &&& self.caps_consistent()
        &&& self.scalar_contents().dom().finite()
        &&& self.vector_contents().dom().finite()
        &&& self.metadata_contents().dom().finite()
        &&& self.stats().hits + self.stats().misses <= u64::MAX
        &&& forall|k: Seq<char>|
            #[trigger] self.scalar_contents().contains_key(k) ==> self.scalar_contents()[k]
                is Scalar
        &&& forall|k: Seq<char>|
            #[trigger] self.vector_contents().contains_key(k) ==> self.vector_contents()[k]
                is Vector
        &&& forall|k: Seq<char>|
            #[trigger] self.metadata_contents().contains_key(k) ==> self.metadata_contents()[k]
                is Metadata
    }

    /// Every namespace is within its capacity, so no eviction is pending.
    pub open spec fn within_capacity(self) -> bool {
        &&& self.scalar_contents().len() <= self.capacity()
        &&& self.vector_contents().len() <= self.capacity()
        &&& self.metadata_contents().len() <= self.capacity()
    }

    /// Total number of entries over the three namespaces.
    pub open spec fn total_entries(self) -> int {
        self.scalar_contents().len() + self.vector_contents().len()
            + self.metadata_contents().len() as int
    }

    /// A fresh cache: three empty namespaces bounded by `capacity` entries
    /// each, and zeroed counters.
    pub fn new(capacity: usize) -> (c: IndexCache)
        ensures
            c.wf(),
            c.capacity() == capacity as u64,
            c.scalar_contents() == empty_contents(),
            c.vector_contents() == empty_contents(),
            c.metadata_contents() == empty_contents(),
            c.stats().hits == 0,
            c.stats().misses == 0,
    {
        IndexCache {
            scalar_cache: store_new(capacity as u64),
            vector_cache: store_new(capacity as u64),
            metadata_cache: store_new(capacity as u64),
            cache_stats: CacheStats::default(),
        }
    }

    /// Look up a scalar index by key; record a hit or a miss.
    ///
    /// A key that the namespace does not hold is never "found": a returned
    /// handle always is the one the contents map at that key. Within
    /// capacity the result is exactly `lookup_scalar` of the contents.
    pub fn get_scalar(&mut self, key: &str) -> (r: Option<ScalarIndexHandle>)
        requires
            old(self).wf(),
            old(self).stats().lookups() < u64::MAX,
        ensures
            final(self).wf(),
            final(self).capacity() == old(self).capacity(),
            final(self).vector_contents() == old(self).vector_contents(),
            final(self).metadata_contents() == old(self).metadata_contents(),
            kept_in(final(self).scalar_contents(), old(self).scalar_contents()),
            r is Some ==> final(self).stats().hits == old(self).stats().hits + 1 && final(self).stats().misses == old(self).stats().misses,
            r is None ==> final(self).stats().misses == old(self).stats().misses + 1 && final(self).stats().hits == old(self).stats().hits,
            r matches Some(h) ==> old(self).scalar_contents().contains_key(key@) && old(self).scalar_contents()[key@] == CacheValueView::Scalar(h),
            r is None ==> !final(self).scalar_contents().contains_key(key@),
            old(self).scalar_contents().len() <= old(self).capacity() ==> final(self).scalar_contents() == old(self).scalar_contents() && r == lookup_scalar(
                old(self).scalar_contents(),
                key@,
            ),
    {
        let ghost pre = *old(self);
        let found = store_get(&mut self.scalar_cache, key);
        proof {
            lemma_value_kind_submap(self.scalar_contents(), pre.scalar_contents());
        }
        match found {
            Some(v) => {
                self.cache_stats.record_hit();
                match v {
                    CacheValue::Scalar(h) => Some(h),
                    _ => {
                        proof {
                            assert(pre.scalar_contents()[key@] is Scalar);
                            assert(v@ is Scalar);
                            assert(false);
                        }
                        None
                    },
                }
            },
            None => {
                self.cache_stats.record_miss();
                None
            },
        }
    }

    /// Look up a vector index by key; record a hit or a miss.
    pub fn get_vector(&mut self, key: &str) -> (r: Option<VectorIndexHandle>)
        requires
            old(self).wf(),
            old(self).stats().lookups() < u64::MAX,
        ensures
            final(self).wf(),
            final(self).capacity() == old(self).capacity(),
            final(self).scalar_contents() == old(self).scalar_contents(),
            final(self).metadata_contents() == old(self).metadata_contents(),
            kept_in(final(self).vector_contents(), old(self).vector_contents()),
            r is Some ==> final(self).stats().hits == old(self).stats().hits + 1 && final(self).stats().misses == old(self).stats().misses,
            r is None ==> final(self).stats().misses == old(self).stats().misses + 1 && final(self).stats().hits == old(self).stats().hits,
            r matches Some(h) ==> old(self).vector_contents().contains_key(key@) && old(self).vector_contents()[key@] == CacheValueView::Vector(h),
            r is None ==> !final(self).vector_contents().contains_key(key@),
            old(self).vector_contents().len() <= old(self).capacity() ==> final(self).vector_contents() == old(self).vector_contents() && r == lookup_vector(
                old(self).vector_contents(),
                key@,
            ),
    {
        let ghost pre = *old(self);
        let found = store_get(&mut self.vector_cache, key);
        proof {
            lemma_value_kind_submap(self.vector_contents(), pre.vector_contents());
        }
        match found {
            Some(v) => {
                self.cache_stats.record_hit();
                match v {
                    CacheValue::Vector(h) => Some(h),
                    _ => {
                        proof {
                            assert(pre.vector_contents()[key@] is Vector);
                            assert(v@ is Vector);
                            assert(false);
                        }
                        None
                    },
                }
            },
            None => {
                self.cache_stats.record_miss();
                None
            },
        }
    }

    /// Upsert a scalar index under `key`. Not a lookup: counters are
    /// untouched. Within capacity the namespace afterwards holds exactly the
    /// old contents plus this binding.
    pub fn insert_scalar(&mut self, key: &str, index: ScalarIndexHandle)
        requires
            old(self).wf(),
        ensures
            final(self).wf(),
            final(self).capacity() == old(self).capacity(),
            final(self).stats() == old(self).stats(),
            final(self).vector_contents() == old(self).vector_contents(),
            final(self).metadata_contents() == old(self).metadata_contents(),
            kept_in(
                final(self).scalar_contents(),
                old(self).scalar_contents().insert(key@, CacheValueView::Scalar(index)),
            ),
            old(self).scalar_contents().insert(key@, CacheValueView::Scalar(index)).len() <= old(self).capacity() ==> final(self).scalar_contents() == old(self).scalar_contents().insert(
                key@,
                CacheValueView::Scalar(index),
            ),
    {
        let ghost pre = *old(self);
        store_insert(&mut self.scalar_cache, key, CacheValue::Scalar(index));
        proof {
            let m2 = pre.scalar_contents().insert(key@, CacheValueView::Scalar(index));
            assert forall|k: Seq<char>| #[trigger] m2.contains_key(k) implies m2[k]
                is Scalar by {
                if k != key@ {
                    assert(pre.scalar_contents().contains_key(k));
                }
            }
            lemma_value_kind_submap(self.scalar_contents(), m2);
        }
    }

    /// Upsert a vector index under `key`. Not a lookup: counters are
    /// untouched.
    pub fn insert_vector(&mut self, key: &str, index: VectorIndexHandle)
        requires
            old(self).wf(),
        ensures
            final(self).wf(),
            final(self).capacity() == old(self).capacity(),
            final(self).stats() == old(self).stats(),
            final(self).scalar_contents() == old(self).scalar_contents(),
            final(self).metadata_contents() == old(self).metadata_contents(),
            kept_in(
                final(self).vector_contents(),
                old(self).vector_contents().insert(key@, CacheValueView::Vector(index)),
            ),
            old(self).vector_contents().insert(key@, CacheValueView::Vector(index)).len() <= old(self).capacity() ==> final(self).vector_contents() == old(self).vector_contents().insert(
                key@,
                CacheValueView::Vector(index),
            ),
    {
        let ghost pre = *old(self);
        store_insert(&mut self.vector_cache, key, CacheValue::Vector(index));
        proof {
            let m2 = pre.vector_contents().insert(key@, CacheValueView::Vector(index));
            assert forall|k: Seq<char>| #[trigger] m2.contains_key(k) implies m2[k]
                is Vector by {
                if k != key@ {
                    assert(pre.vector_contents().contains_key(k));
                }
            }
            lemma_value_kind_submap(self.vector_contents(), m2);
        }
    }

    /// Look up the index metadata listing of `version` of the dataset named
    /// `key`; record a hit or a miss. The composite key is built here, never
    /// by the caller.
    pub fn get_metadata(&mut self, key: &str, version: u64) -> (r: Option<Vec<IndexDescriptor>>)
        requires
            old(self).wf(),
            old(self).stats().lookups() < u64::MAX,
        ensures
            final(self).wf(),
            final(self).capacity() == old(self).capacity(),
            final(self).scalar_contents() == old(self).scalar_contents(),
            final(self).vector_contents() == old(self).vector_contents(),
            kept_in(final(self).metadata_contents(), old(self).metadata_contents()),
            r is Some ==> final(self).stats().hits == old(self).stats().hits + 1 && final(self).stats().misses == old(self).stats().misses,
            r is None ==> final(self).stats().misses == old(self).stats().misses + 1 && final(self).stats().hits == old(self).stats().hits,
            r matches Some(ds) ==> old(self).metadata_contents().contains_key(
                metadata_key_spec(key@, version),
            ) && old(self).metadata_contents()[metadata_key_spec(key@, version)]
                == CacheValueView::Metadata(ds.deep_view()),
            r is None ==> !final(self).metadata_contents().contains_key(
                metadata_key_spec(key@, version),
            ),
            old(self).metadata_contents().len() <= old(self).capacity() ==> final(self).metadata_contents() == old(self).metadata_contents() && (r matches Some(ds)
                ==> lookup_metadata(old(self).metadata_contents(), metadata_key_spec(key@, version))
                == Some(ds.deep_view())) && (r is None ==> lookup_metadata(
                old(self).metadata_contents(),
                metadata_key_spec(key@, version),
            ) is None),
    {
        let ghost pre = *old(self);
        let composite = metadata_key(key, version);
        let found = store_get(&mut self.metadata_cache, composite.as_str());
        proof {
            lemma_value_kind_submap(self.metadata_contents(), pre.metadata_contents());
        }
        match found {
            Some(v) => {
                self.cache_stats.record_hit();
                match v {
                    CacheValue::Metadata(ds) => Some(ds),
                    _ => {
                        proof {
                            assert(pre.metadata_contents()[composite@] is Metadata);
                            assert(v@ is Metadata);
                            assert(false);
                        }
                        None
                    },
                }
            },
            None => {
                self.cache_stats.record_miss();
                None
            },
        }
    }

    /// Upsert the metadata listing of `version` of the dataset named `key`,
    /// under the composite key. Not a lookup: counters are untouched.
    pub fn insert_metadata(&mut self, key: &str, version: u64, indices: Vec<IndexDescriptor>)
        requires
            old(self).wf(),
        ensures
            final(self).wf(),
            final(self).capacity() == old(self).capacity(),
            final(self).stats() == old(self).stats(),
            final(self).scalar_contents() == old(self).scalar_contents(),
            final(self).vector_contents() == old(self).vector_contents(),
            kept_in(
                final(self).metadata_contents(),
                old(self).metadata_contents().insert(
                    metadata_key_spec(key@, version),
                    CacheValueView::Metadata(indices.deep_view()),
                ),
            ),
            old(self).metadata_contents().insert(
                metadata_key_spec(key@, version),
                CacheValueView::Metadata(indices.deep_view()),
            ).len() <= old(self).capacity() ==> final(self).metadata_contents() == old(self).metadata_contents().insert(
                metadata_key_spec(key@, version),
                CacheValueView::Metadata(indices.deep_view()),
            ),
    {
        let ghost pre = *old(self);
        let composite = metadata_key(key, version);
        let ghost inserted = CacheValueView::Metadata(indices.deep_view());
        store_insert(&mut self.metadata_cache, composite.as_str(), CacheValue::Metadata(indices));
        proof {
            let m2 = pre.metadata_contents().insert(metadata_key_spec(key@, version), inserted);
            assert forall|k: Seq<char>| #[trigger] m2.contains_key(k) implies m2[k]
                is Metadata by {
                if k != metadata_key_spec(key@, version) {
                    assert(pre.metadata_contents().contains_key(k));
                }
            }
            lemma_value_kind_submap(self.metadata_contents(), m2);
        }
    }

    /// Number of entries in the vector namespace, after forcing its pending
    /// bookkeeping. Exact while the namespace is within capacity.
    pub fn len_vector(&mut self) -> (n: u64)
        requires
            old(self).wf(),
        ensures
            final(self).wf(),
            final(self).capacity() == old(self).capacity(),
            final(self).stats() == old(self).stats(),
            final(self).scalar_contents() == old(self).scalar_contents(),
            final(self).metadata_contents() == old(self).metadata_contents(),
            kept_in(final(self).vector_contents(), old(self).vector_contents()),
            old(self).vector_contents().len() <= old(self).capacity() ==> final(self).vector_contents() == old(self).vector_contents() && n == old(self).vector_contents().len(),
    {
        let ghost pre = *old(self);
        store_sync(&mut self.vector_cache);
        proof {
            lemma_value_kind_submap(self.vector_contents(), pre.vector_contents());
        }
        store_entry_count(&self.vector_cache)
    }

    /// Total entry count over the three namespaces, after forcing their
    /// pending bookkeeping. A diagnostic: exact while every namespace is
    /// within capacity (and the sum representable); an estimate otherwise.
    pub fn get_size(&mut self) -> (n: u64)
        requires
            old(self).wf(),
        ensures
            final(self).wf(),
            final(self).capacity() == old(self).capacity(),
            final(self).stats() == old(self).stats(),
            kept_in(final(self).scalar_contents(), old(self).scalar_contents()),
            kept_in(final(self).vector_contents(), old(self).vector_contents()),
            kept_in(final(self).metadata_contents(), old(self).metadata_contents()),
            old(self).within_capacity() ==> final(self).scalar_contents() == old(self).scalar_contents() && final(self).vector_contents() == old(self).vector_contents()
                && final(self).metadata_contents() == old(self).metadata_contents() && (old(self).total_entries() <= u64::MAX ==> n == old(self).total_entries()),
    {
        let ghost pre = *old(self);
        store_sync(&mut self.scalar_cache);
        store_sync(&mut self.vector_cache);
        store_sync(&mut self.metadata_cache);
        proof {
            lemma_value_kind_submap(self.scalar_contents(), pre.scalar_contents());
            lemma_value_kind_submap(self.vector_contents(), pre.vector_contents());
            lemma_value_kind_submap(self.metadata_contents(), pre.metadata_contents());
        }
        let n1 = store_entry_count(&self.scalar_cache);
        let n2 = store_entry_count(&self.vector_cache);
        let n3 = store_entry_count(&self.metadata_cache);
        let n12 = if n1 <= u64::MAX - n2 {
            n1 + n2
        } else {
            u64::MAX
        };
        if n12 <= u64::MAX - n3 {
            n12 + n3
        } else {
            u64::MAX
        }
    }

    /// The cache's hit rate, as the fraction `numerator / denominator` of
    /// recorded hits among recorded lookups. A cache that has seen no lookup
    /// yet reports the full rate `1/1` — an explicit policy, avoiding a zero
    /// denominator.
    pub fn hit_rate(&self) -> (r: (u64, u64))
        requires
            self.wf(),
        ensures
            self.stats().lookups() == 0 ==> r == (1u64, 1u64),
            self.stats().lookups() > 0 ==> r.0 == self.stats().hits && r.1
                == self.stats().lookups(),
    {
        let hits = self.cache_stats.hits;
        let misses = self.cache_stats.misses;
        let total = hits + misses;
        if total == 0 {
            (1, 1)
        } else {
            (hits, total)
        }
    }
}

/// Values kept by an eviction are unchanged: contents kept in a map that
/// holds only one namespace's kind of value still hold only that kind.
proof fn lemma_value_kind_submap(m1: Map<Seq<char>, CacheValueView>, m2: Map<Seq<char>, CacheValueView>)
    requires
        kept_in(m1, m2),
    ensures
        (forall|k: Seq<char>| #[trigger] m2.contains_key(k) ==> m2[k] is Scalar) ==> (forall|
            k: Seq<char>,
        | #[trigger] m1.contains_key(k) ==> m1[k] is Scalar),
        (forall|k: Seq<char>| #[trigger] m2.contains_key(k) ==> m2[k] is Vector) ==> (forall|
            k: Seq<char>,
        | #[trigger] m1.contains_key(k) ==> m1[k] is Vector),
        (forall|k: Seq<char>| #[trigger] m2.contains_key(k) ==> m2[k] is Metadata) ==> (forall|
            k: Seq<char>,
        | #[trigger] m1.contains_key(k) ==> m1[k] is Metadata),
{
}

} // verus!
