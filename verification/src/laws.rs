//! The laws the cache obeys, stated over the same contents maps and lookup
//! functions that the cache's contracts use, and proved once and for all.
//!
//! `get_*`'s contracts return exactly `lookup_*` of a namespace's contents
//! while the namespace is within capacity, and `insert_*`'s contracts then
//! make the new contents exactly `old.insert(key, value)`; these lemmas spell
//! out what those two facts combine to.

use vstd::prelude::*;

use crate::cache::{lookup_metadata, lookup_scalar, lookup_vector};
use crate::keys::{lemma_metadata_key_injective, metadata_key_spec};
use crate::values::{CacheValueView, IndexDescriptorView, ScalarIndexHandle, VectorIndexHandle};

verus! {

/// A key that no insert has bound is absent: looking it up in any namespace's
/// contents yields nothing (and the cache's `get_*` contracts then record
/// exactly one miss for it).
pub proof fn lemma_lookup_absent(m: Map<Seq<char>, CacheValueView>, k: Seq<char>)
    requires
        !m.contains_key(k),
    ensures
        lookup_scalar(m, k) is None,
        lookup_vector(m, k) is None,
        lookup_metadata(m, k) is None,
{
}

/// Inserting a scalar handle and then looking the same key up yields exactly
/// the inserted handle.
pub proof fn lemma_insert_then_lookup_scalar(
    m: Map<Seq<char>, CacheValueView>,
    k: Seq<char>,
    h: ScalarIndexHandle,
)
    ensures
        lookup_scalar(m.insert(k, CacheValueView::Scalar(h)), k) == Some(h),
{
}

/// Inserting a vector handle and then looking the same key up yields exactly
/// the inserted handle.
pub proof fn lemma_insert_then_lookup_vector(
    m: Map<Seq<char>, CacheValueView>,
    k: Seq<char>,
    h: VectorIndexHandle,
)
    ensures
        lookup_vector(m.insert(k, CacheValueView::Vector(h)), k) == Some(h),
{
}

/// Inserting a metadata listing and then looking the same key up yields
/// exactly the inserted listing.
pub proof fn lemma_insert_then_lookup_metadata(
    m: Map<Seq<char>, CacheValueView>,
    k: Seq<char>,
    ds: Seq<IndexDescriptorView>,
)
    ensures
        lookup_metadata(m.insert(k, CacheValueView::Metadata(ds)), k) == Some(ds),
{
}

/// An insert on an existing key replaces the value: a later lookup yields
/// only the latest inserted handle, never the prior one.
pub proof fn lemma_insert_replaces_scalar(
    m: Map<Seq<char>, CacheValueView>,
    k: Seq<char>,
    h1: ScalarIndexHandle,
    h2: ScalarIndexHandle,
)
    ensures
        lookup_scalar(
            m.insert(k, CacheValueView::Scalar(h1)).insert(k, CacheValueView::Scalar(h2)),
            k,
        ) == Some(h2),
        h1 != h2 ==> lookup_scalar(
            m.insert(k, CacheValueView::Scalar(h1)).insert(k, CacheValueView::Scalar(h2)),
            k,
        ) != Some(h1),
{
}

/// An insert on an existing key replaces the value, vector namespace.
pub proof fn lemma_insert_replaces_vector(
    m: Map<Seq<char>, CacheValueView>,
    k: Seq<char>,
    h1: VectorIndexHandle,
    h2: VectorIndexHandle,
)
    ensures
        lookup_vector(
            m.insert(k, CacheValueView::Vector(h1)).insert(k, CacheValueView::Vector(h2)),
            k,
        ) == Some(h2),
        h1 != h2 ==> lookup_vector(
            m.insert(k, CacheValueView::Vector(h1)).insert(k, CacheValueView::Vector(h2)),
            k,
        ) != Some(h1),
{
}

/// An insert on an existing composite key replaces the metadata listing.
pub proof fn lemma_insert_replaces_metadata(
    m: Map<Seq<char>, CacheValueView>,
    k: Seq<char>,
    ds1: Seq<IndexDescriptorView>,
    ds2: Seq<IndexDescriptorView>,
)
    ensures
        lookup_metadata(
            m.insert(k, CacheValueView::Metadata(ds1)).insert(k, CacheValueView::Metadata(ds2)),
            k,
        ) == Some(ds2),
        ds1 != ds2 ==> lookup_metadata(
            m.insert(k, CacheValueView::Metadata(ds1)).insert(k, CacheValueView::Metadata(ds2)),
            k,
        ) != Some(ds1),
{
}

/// Metadata entries are namespaced by their (dataset, version) pair: an
/// insert under one pair never changes what another pair's composite key maps
/// to, because distinct pairs never collide on the formatted key.
pub proof fn lemma_metadata_namespacing(
    m: Map<Seq<char>, CacheValueView>,
    dataset1: Seq<char>,
    version1: u64,
    dataset2: Seq<char>,
    version2: u64,
    inserted: CacheValueView,
)
    requires
        dataset1 != dataset2 || version1 != version2,
    ensures
        lookup_metadata(
            m.insert(metadata_key_spec(dataset2, version2), inserted),
            metadata_key_spec(dataset1, version1),
        ) == lookup_metadata(m, metadata_key_spec(dataset1, version1)),
{
    if metadata_key_spec(dataset1, version1) == metadata_key_spec(dataset2, version2) {
        lemma_metadata_key_injective(dataset1, version1, dataset2, version2);
    }
}

} // verus!
