//! The counting admission gate: at most a fixed number of permits are
//! ever out at once. The blocking behaviour (waiting until a permit is
//! free) belongs to the caller's scheduling; the counter itself, and the
//! bound it enforces, are verified here.

use vstd::prelude::*;

verus! {

/// A counting gate with a fixed capacity. `acquire` hands a permit out,
/// `release` returns it; the number of permits out — the number of
/// concurrently admitted fetches — never exceeds the capacity.
#[derive(Debug)]
pub struct Semaphore {
    permits: usize,
    limit: usize,
}

impl Semaphore {
    /// Permits currently free.
    pub closed spec fn spec_permits(self) -> int {
        self.permits as int
    }

    /// The number of permits that may ever be out at once.
    pub closed spec fn spec_limit(self) -> int {
        self.limit as int
    }

    /// Permits currently out: admitted, not yet released.
    pub open spec fn in_flight(self) -> int {
        self.spec_limit() - self.spec_permits()
    }

    pub open spec fn wf(self) -> bool {
        1 <= self.spec_limit() && 0 <= self.spec_permits() <= self.spec_limit()
    }

    pub fn new(permits: usize) -> (r: Self)
        requires
            permits >= 1,
        ensures
            r.wf(),
            r.spec_limit() == permits,
            r.spec_permits() == permits,
    {
        Semaphore { permits, limit: permits }
    }

    /// Whether a permit is free; callers wait (their own way) until so.
    pub fn available(&self) -> (r: bool)
        ensures
            r == (self.spec_permits() >= 1),
    {
        self.permits >= 1
    }

    /// Take one permit. Callers must have seen one free.
    pub fn acquire(&mut self)
        requires
            old(self).wf(),
            old(self).spec_permits() >= 1,
        ensures
            final(self).wf(),
            final(self).spec_limit() == old(self).spec_limit(),
            final(self).spec_permits() == old(self).spec_permits() - 1,
    {
        self.permits = self.permits - 1;
    }

    /// Return one permit; runs on every exit path of a task, success or
    /// failure, so a failing task never keeps its permit.
    pub fn release(&mut self)
        requires
            old(self).wf(),
            old(self).spec_permits() < old(self).spec_limit(),
        ensures
            final(self).wf(),
            final(self).spec_limit() == old(self).spec_limit(),
            final(self).spec_permits() == old(self).spec_permits() + 1,
    {
        self.permits = self.permits + 1;
    }
}

/// The concurrency bound: in any well-formed gate state, the number of
/// permits out never exceeds the configured capacity.
pub proof fn lemma_gate_bound(s: Semaphore)
    requires
        s.wf(),
    ensures
        0 <= s.in_flight() <= s.spec_limit(),
{
}

} // verus!
