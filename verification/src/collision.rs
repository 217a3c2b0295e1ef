//! Per-tick collision bookkeeping.
//!
//! The contact arithmetic itself (distances, impulses, merged values) is part
//! of the floating-point kernel a caller supplies to the engine; the engine
//! accounts for its reported events and, in merge mode, compacts the
//! population.

use vstd::prelude::*;

verus! {

/// What one collision-resolution pass reported.
#[derive(Clone, Copy, Debug, PartialEq, Eq, Structural)]
pub struct CollisionStats {
    /// Colliding pairs handled this tick.
    pub collisions: u64,
    /// Pairs merged inelastically this tick.
    pub merges: u64,
}

impl Default for CollisionStats {
    /// A pass that saw no contact.
    fn default() -> (r: CollisionStats)
        ensures
            r == (CollisionStats { collisions: 0, merges: 0 }),
    {
        CollisionStats { collisions: 0, merges: 0 }
    }
}

} // verus!
