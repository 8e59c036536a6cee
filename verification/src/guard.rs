//! The resource lifetime guard.
//!
//! A release plan is attached when the image is created: it names every
//! imported plane memory to free and the native image to destroy. The
//! guard hands the plan out exactly once, whichever exit path asks first —
//! teardown after success, cleanup after a bind failure, or a later
//! explicit disposal — so the release can never run twice, and an image
//! can never exist without its guard.

use vstd::prelude::*;

verus! {

/// What releasing an imported texture must do: free every imported plane
/// memory, then destroy the native image.
#[derive(Debug, Clone, PartialEq, Eq)]
pub struct ReleasePlan {
    /// The imported plane memory handles, in plane order.
    pub memories: Vec<u64>,
    /// The native image handle.
    pub image: u64,
}

/// The one-shot holder of a [`ReleasePlan`].
#[derive(Debug)]
pub struct DropCallback {
    plan: Option<ReleasePlan>,
}

impl DropCallback {
    /// Whether the guard still holds its release plan.
    pub closed spec fn is_armed(&self) -> bool {
        self.plan is Some
    }

    /// The release plan the guard was armed with.
    pub closed spec fn plan(&self) -> ReleasePlan
        recommends
            self.is_armed(),
    {
        self.plan->0
    }

    /// Arms a guard with the release plan for a freshly created image.
    pub fn new(plan: ReleasePlan) -> (r: DropCallback)
        ensures
            r.is_armed(),
            r.plan() == plan,
    {
        DropCallback { plan: Some(plan) }
    }

    /// A guard that owns nothing; taking from it yields nothing.
    pub fn empty() -> (r: DropCallback)
        ensures
            !r.is_armed(),
    {
        DropCallback { plan: None }
    }

    /// Takes the release plan out of the guard. The first call on an armed
    /// guard returns the plan and disarms the guard; every later call
    /// returns nothing, so the release actions can never be issued twice.
    pub fn take(&mut self) -> (r: Option<ReleasePlan>)
        ensures
            !final(self).is_armed(),
            old(self).is_armed() ==> r == Some(old(self).plan()),
            !old(self).is_armed() ==> r is None,
    {
        let r = self.plan.take();
        r
    }
}

/// Law: release runs at most once. Taking from a guard twice always yields
/// nothing the second time, whatever the guard held at first.
pub proof fn lemma_release_runs_at_most_once(g0: DropCallback, g1: DropCallback, g2: DropCallback, r1: Option<ReleasePlan>, r2: Option<ReleasePlan>)
    requires
        // the two takes, as `take` specifies them
        !g1.is_armed(),
        g0.is_armed() ==> r1 == Some(g0.plan()),
        !g0.is_armed() ==> r1 is None,
        !g2.is_armed(),
        g1.is_armed() ==> r2 == Some(g1.plan()),
        !g1.is_armed() ==> r2 is None,
    ensures
        r2 is None,
{
}

} // verus!
