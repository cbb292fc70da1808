//! A capacity-bounded, three-namespace cache for loaded index structures.
//!
//! The cache memoizes expensive-to-load index values behind string keys in
//! three independent namespaces — scalar indexes, vector indexes, and
//! per-dataset-version index metadata listings — while bounding each
//! namespace's entry count and recording hit/miss statistics. It is a passive
//! memoization layer: on a miss the caller loads the value itself and inserts
//! it.
//!
//! The bounded concurrent map underneath is `moka`'s synchronous cache; its
//! behaviour enters the proofs only through the trusted contracts of the
//! store module.

mod cache;
mod keys;
mod laws;
mod stats;
mod store;
mod values;

pub use cache::{lookup_metadata, lookup_scalar, lookup_vector, IndexCache};
pub use keys::{decimal_digits, lemma_metadata_key_injective, metadata_key_spec};
pub use laws::{lemma_insert_replaces_metadata, lemma_insert_replaces_scalar,
    lemma_insert_replaces_vector, lemma_insert_then_lookup_metadata,
    lemma_insert_then_lookup_scalar, lemma_insert_then_lookup_vector, lemma_lookup_absent,
    lemma_metadata_namespacing};
pub use stats::CacheStats;
pub use values::{CacheValue, CacheValueView, IndexDescriptor, IndexDescriptorView,
    ScalarIndexHandle, VectorIndexHandle};
