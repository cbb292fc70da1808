//! Hit/miss accounting shared by the three cache namespaces.
//!
//! The counters only grow; a lookup increments exactly one of them. The sum of
//! the two counters is kept within `u64::MAX` so that the hit rate's
//! denominator can be computed without overflow.

use vstd::prelude::*;

verus! {

/// Monotonic hit and miss counters for one cache instance.
#[derive(Clone, Copy, Debug, PartialEq, Eq, Structural)]
pub struct CacheStats {
    pub hits: u64,
    pub misses: u64,
}

impl CacheStats {
    /// Total number of lookups recorded so far.
    pub open spec fn lookups(self) -> int {
        self.hits + self.misses
    }

    /// Record one lookup that found its key.
    pub fn record_hit(&mut self)
        requires
            old(self).lookups() < u64::MAX,
        ensures
            final(self).hits == old(self).hits + 1,
            final(self).misses == old(self).misses,
    {
        self.hits = self.hits + 1;
    }

    /// Record one lookup that did not find its key.
    pub fn record_miss(&mut self)
        requires
            old(self).lookups() < u64::MAX,
        ensures
            final(self).misses == old(self).misses + 1,
            final(self).hits == old(self).hits,
    {
        self.misses = self.misses + 1;
    }
}

impl Default for CacheStats {
    /// Fresh counters: no lookups recorded yet.
    fn default() -> (s: CacheStats)
        ensures
            s.hits == 0,
            s.misses == 0,
    {
        CacheStats { hits: 0, misses: 0 }
    }
}

} // verus!
