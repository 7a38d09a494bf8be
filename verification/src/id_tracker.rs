//! The identifiers that new agents get.

use vstd::prelude::*;

verus! {

/// Hands out agent identifiers: 1, 2, 3 and so on.
#[derive(Debug)]
pub struct DroneIdTracker {
    next_id: u32,
}

impl DroneIdTracker {
    /// The identifier that was handed out last; 0 before the first.
    pub closed spec fn issued(&self) -> int {
        self.next_id as int
    }

    /// Computes [`Self::issued`].
    pub fn last_id(&self) -> (id: u32)
        ensures
            id == self.issued(),
    {
        self.next_id
    }

    /// Hands out the next identifier. There is none after `u32::MAX`.
    pub fn increment(&mut self) -> (id: u32)
        requires
            old(self).issued() < u32::MAX,
        ensures
            id == old(self).issued() + 1,
            final(self).issued() == id,
    {
        self.next_id = self.next_id + 1;
        self.next_id
    }
}

impl Default for DroneIdTracker {
    /// A tracker that has handed out nothing yet.
    fn default() -> (tracker: DroneIdTracker)
        ensures
            tracker.issued() == 0,
    {
        DroneIdTracker { next_id: 0 }
    }
}

} // verus!
