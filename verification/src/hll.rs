//! HyperLogLog (HLL) cardinality estimation: the choice of per-bucket
//! representation.

use vstd::prelude::*;

verus! {

/// Controls the internal representation HLL uses to store per-bucket state,
/// trading memory for accuracy. `Hll4` is the most memory-compact; `Hll8` is
/// the least compact but fastest to update and most accurate at small
/// cardinalities.
#[derive(Debug, Clone, Copy, PartialEq, Eq, Structural)]
pub enum TargetHllType {
    /// 4 bits per bucket: most memory-compact.
    Hll4,
    /// 6 bits per bucket.
    Hll6,
    /// 8 bits per bucket: least compact, fastest, most accurate at small n.
    Hll8,
}

} // verus!
