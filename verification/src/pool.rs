//! The bounded fan-out of the health-check cycle.
//!
//! Probes run concurrently, but never more than the configured maximum at
//! once. This type is the slot accounting of that worker pool: a launch
//! takes a slot and is refused when none is free, a completion returns
//! one. Its invariant is the concurrency bound itself.

use vstd::prelude::*;

verus! {

/// Slot accounting of a bounded worker pool.
pub struct WorkerPool {
    bound: usize,
    in_flight: usize,
}

impl WorkerPool {
    /// The configured maximum number of probes in flight at once.
    pub closed spec fn spec_bound(&self) -> usize {
        self.bound
    }

    /// How many probes hold a slot right now.
    pub closed spec fn spec_in_flight(&self) -> usize {
        self.in_flight
    }

    /// The pool never holds more probes in flight than its bound.
    pub open spec fn wf(&self) -> bool {
        self.spec_in_flight() <= self.spec_bound()
    }

    /// A fresh pool with `bound` slots, none taken.
    pub fn new(bound: usize) -> (p: WorkerPool)
        requires
            bound >= 1,
        ensures
            p.wf(),
            p.spec_bound() == bound,
            p.spec_in_flight() == 0,
    {
        WorkerPool { bound, in_flight: 0 }
    }

    /// Take a slot for one probe. Succeeds exactly when a slot is free;
    /// a caller whose launch is refused must wait for a completion.
    pub fn try_launch(&mut self) -> (launched: bool)
        requires
            old(self).wf(),
        ensures
            final(self).wf(),
            final(self).spec_bound() == old(self).spec_bound(),
            launched == (old(self).spec_in_flight() < old(self).spec_bound()),
            launched ==> final(self).spec_in_flight() == old(self).spec_in_flight() + 1,
            !launched ==> final(self).spec_in_flight() == old(self).spec_in_flight(),
    {
        if self.in_flight < self.bound {
            self.in_flight = self.in_flight + 1;
            true
        } else {
            false
        }
    }

    /// Return the slot of a finished probe.
    pub fn complete(&mut self)
        requires
            old(self).wf(),
            old(self).spec_in_flight() >= 1,
        ensures
            final(self).wf(),
            final(self).spec_bound() == old(self).spec_bound(),
            final(self).spec_in_flight() == old(self).spec_in_flight() - 1,
    {
        self.in_flight = self.in_flight - 1;
    }

    /// The number of probes currently holding a slot.
    pub fn in_flight(&self) -> (n: usize)
        ensures
            n == self.spec_in_flight(),
    {
        self.in_flight
    }

    /// The configured bound.
    pub fn bound(&self) -> (n: usize)
        ensures
            n == self.spec_bound(),
    {
        self.bound
    }
}

/// Launching health checks for any number of websites with a bound of
/// `K` never has more than `K` probes in flight: every pool reachable
/// through `new`, `try_launch` and `complete` satisfies `wf`, and `wf`
/// is this bound.
pub proof fn lemma_bound_never_exceeded(p: WorkerPool)
    requires
        p.wf(),
    ensures
        p.spec_in_flight() <= p.spec_bound(),
{
}

} // verus!
