//! The values the cache stores: opaque handles for loaded scalar and vector
//! indexes, and descriptor lists for a dataset version's index metadata.
//!
//! The cache never looks inside a stored value; it returns exactly what it was
//! given. A handle is a small token that identifies a loaded index structure;
//! the surrounding application keeps the actual polymorphic index object and
//! resolves handles to it.

use vstd::prelude::*;

verus! {

/// A shared handle to a loaded scalar index. Opaque to the cache.
#[derive(Clone, Copy, Debug, PartialEq, Eq, Structural)]
pub struct ScalarIndexHandle {
    pub id: u64,
}

/// A shared handle to a loaded vector index. Opaque to the cache.
#[derive(Clone, Copy, Debug, PartialEq, Eq, Structural)]
pub struct VectorIndexHandle {
    pub id: u64,
}

/// One index descriptor of a dataset version's metadata listing: which index
/// exists, under what name, and which columns it covers. Opaque to the cache.
#[derive(Clone, Debug, PartialEq)]
pub struct IndexDescriptor {
    pub name: String,
    pub fields: Vec<u32>,
    pub dataset_version: u64,
}

/// The mathematical value of an [`IndexDescriptor`].
pub struct IndexDescriptorView {
    pub name: Seq<char>,
    pub fields: Seq<u32>,
    pub dataset_version: u64,
}

impl View for IndexDescriptor {
    type V = IndexDescriptorView;

    open spec fn view(&self) -> IndexDescriptorView {
        IndexDescriptorView {
            name: self.name@,
            fields: self.fields@,
            dataset_version: self.dataset_version,
        }
    }
}

impl DeepView for IndexDescriptor {
    type V = IndexDescriptorView;

    open spec fn deep_view(&self) -> IndexDescriptorView {
        self.view()
    }
}

/// One entry of a namespace's store. Each namespace only ever holds its own
/// variant; the cache's well-formedness invariant records that.
#[derive(Clone, Debug)]
pub enum CacheValue {
    Scalar(ScalarIndexHandle),
    Vector(VectorIndexHandle),
    Metadata(Vec<IndexDescriptor>),
}

/// The mathematical value of a [`CacheValue`].
pub enum CacheValueView {
    Scalar(ScalarIndexHandle),
    Vector(VectorIndexHandle),
    Metadata(Seq<IndexDescriptorView>),
}

impl View for CacheValue {
    type V = CacheValueView;

    open spec fn view(&self) -> CacheValueView {
        match self {
            CacheValue::Scalar(h) => CacheValueView::Scalar(*h),
            CacheValue::Vector(h) => CacheValueView::Vector(*h),
            CacheValue::Metadata(ds) => CacheValueView::Metadata(ds.deep_view()),
        }
    }
}

} // verus!
