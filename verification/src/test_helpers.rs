//! The rules of the test harness: an app under test exits once every tracked Action has
//! finished, but not before any ActionTracker was ever despawned (so that it does not
//! stop before the first tracker was even created).

use vstd::prelude::*;

verus! {

/// Whether at least one ActionTracker has been despawned.
#[derive(Debug, Clone, Copy, PartialEq, Eq, Structural)]
pub struct DespawnedAnyActionTrackers(pub bool);

impl Default for DespawnedAnyActionTrackers {
    fn default() -> (r: Self)
        ensures
            !r.0,
    {
        Self(false)
    }
}

/// Records that a tracker despawn occurred.
pub fn mark_despawn_occurred(marker: &mut DespawnedAnyActionTrackers)
    ensures
        final(marker).0,
{
    marker.0 = true;
}

/// Whether the app exits: some tracker has been despawned and none is left.
pub fn exit_on_finish_all_tasks(despawned: &DespawnedAnyActionTrackers, trackers_remaining: usize) -> (r: bool)
    ensures
        r == (despawned.0 && trackers_remaining == 0),
{
    if !despawned.0 {
        return false;
    }
    trackers_remaining == 0
}

} // verus!
