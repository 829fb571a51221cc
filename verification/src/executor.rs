//! The bounded task executor, modelled as an explicit dispatch/record
//! state machine. The caller's workers (however they are scheduled) ask
//! for the next admitted task with `next_task`, perform the one fetch it
//! stands for, and hand the outcome back through `record`; the machine
//! guarantees that the number of dispatched-but-unrecorded tasks never
//! exceeds the configured limit, that every planned task is dispatched
//! exactly once, and that the final aggregation sees every outcome.

use vstd::prelude::*;
use crate::aggregate::{aggregate, aggregate_post};
use crate::chunks::{spec_chunks_tile, yearly_chunks};
use crate::dates::Date;
use crate::errors::InputError;
use crate::outcome::{AggregateFailure, TaskOutcome};
use crate::planner::{plan, plan_post, WorkItem};
use crate::rows::PrecipitationRow;
use crate::semaphore::Semaphore;
use crate::stations::Station;

verus! {

/// The orchestration state for one parallel run.
#[derive(Debug)]
pub struct Executor {
    items: Vec<WorkItem>,
    next: usize,
    gate: Semaphore,
    outcomes: Vec<TaskOutcome>,
}

impl Executor {
    /// The planned work items, fixed for the run.
    pub closed spec fn spec_items(self) -> Seq<WorkItem> {
        self.items@
    }

    /// How many items have been dispatched so far.
    pub closed spec fn spec_next(self) -> int {
        self.next as int
    }

    /// The outcomes recorded so far, in completion order.
    pub closed spec fn spec_outcomes(self) -> Seq<TaskOutcome> {
        self.outcomes@
    }

    /// The configured concurrency limit.
    pub closed spec fn spec_limit(self) -> int {
        self.gate.spec_limit()
    }

    /// Tasks dispatched whose outcome has not been recorded yet: the
    /// concurrently outstanding fetches.
    pub closed spec fn in_flight(self) -> int {
        self.gate.in_flight()
    }

    pub closed spec fn wf(self) -> bool {
        &&& self.gate.wf()
        &&& self.spec_next() <= self.spec_items().len()
        &&& self.spec_outcomes().len() + self.in_flight() == self.spec_next()
    }

    /// Every reachable state keeps the outstanding count within bounds.
    pub proof fn lemma_wf_bounds(self)
        requires
            self.wf(),
        ensures
            0 <= self.in_flight() <= self.spec_limit(),
            self.spec_outcomes().len() <= self.spec_next() <= self.spec_items().len(),
    {
    }

    /// Start a run over an already planned item sequence.
    pub fn new(items: Vec<WorkItem>, limit: usize) -> (r: Executor)
        requires
            limit >= 1,
        ensures
            r.wf(),
            r.spec_items() == items@,
            r.spec_next() == 0,
            r.spec_outcomes() == Seq::<TaskOutcome>::empty(),
            r.spec_limit() == limit,
            r.in_flight() == 0,
    {
        let e = Executor { items, next: 0, gate: Semaphore::new(limit), outcomes: Vec::new() };
        proof {
            assert(e.spec_outcomes() =~= Seq::<TaskOutcome>::empty());
        }
        e
    }

    /// The next admitted task, when a permit is free and tasks remain;
    /// `None` when every permit is out, so that an outcome has to come
    /// back first, or when nothing is left to dispatch.
    pub fn next_task(&mut self) -> (r: Option<WorkItem>)
        requires
            old(self).wf(),
        ensures
            final(self).wf(),
            final(self).spec_items() == old(self).spec_items(),
            final(self).spec_limit() == old(self).spec_limit(),
            final(self).spec_outcomes() == old(self).spec_outcomes(),
            match r {
                Some(w) => {
                    &&& old(self).in_flight() < old(self).spec_limit()
                    &&& old(self).spec_next() < old(self).spec_items().len()
                    &&& w == old(self).spec_items()[old(self).spec_next()]
                    &&& final(self).spec_next() == old(self).spec_next() + 1
                    &&& final(self).in_flight() == old(self).in_flight() + 1
                },
                None => {
                    &&& old(self).in_flight() == old(self).spec_limit() || old(self).spec_next()
                        == old(self).spec_items().len()
                    &&& *final(self) == *old(self)
                },
            },
    {
        if self.next < self.items.len() && self.gate.available() {
            self.gate.acquire();
            let w = self.items[self.next].clone();
            self.next = self.next + 1;
            Some(w)
        } else {
            None
        }
    }

    /// Record one dispatched task's outcome, returning its gate permit.
    pub fn record(&mut self, outcome: TaskOutcome)
        requires
            old(self).wf(),
            old(self).in_flight() >= 1,
        ensures
            final(self).wf(),
            final(self).spec_items() == old(self).spec_items(),
            final(self).spec_limit() == old(self).spec_limit(),
            final(self).spec_next() == old(self).spec_next(),
            final(self).spec_outcomes() == old(self).spec_outcomes().push(outcome),
            final(self).in_flight() == old(self).in_flight() - 1,
    {
        self.gate.release();
        self.outcomes.push(outcome);
    }

    /// Whether every planned task has been handed out. A caller that
    /// sees no task and `true` here has no work left to wait for of its
    /// own; outstanding tasks belong to whoever dispatched them.
    pub fn all_dispatched(&self) -> (r: bool)
        ensures
            r == (self.spec_next() == self.spec_items().len()),
    {
        self.next == self.items.len()
    }

    /// Whether every planned task has been dispatched and recorded.
    pub fn is_done(&self) -> (r: bool)
        requires
            self.wf(),
        ensures
            r == (self.spec_outcomes().len() == self.spec_items().len() && self.in_flight() == 0),
    {
        self.next == self.items.len() && self.outcomes.len() == self.items.len()
    }

    /// Aggregate the complete run: the join/barrier point. Callable only
    /// once every planned task has completed, success or failure.
    pub fn finish(self) -> (r: Result<Vec<PrecipitationRow>, AggregateFailure>)
        requires
            self.wf(),
            self.spec_outcomes().len() == self.spec_items().len(),
            self.in_flight() == 0,
        ensures
            aggregate_post(self.spec_outcomes(), r),
    {
        aggregate(self.outcomes)
    }
}

/// Validate and plan a parallel run: well-formed dates in order, a
/// non-empty station set, the range chunked by calendar year, and one
/// work item per (station, chunk) pair.
pub fn new_run(stations: &Vec<Station>, from: &Date, to: &Date, limit: usize) -> (r: Result<
    Executor,
    InputError,
>)
    requires
        limit >= 1,
    ensures
        r matches Err(e) ==> match e {
            InputError::InvalidInput => !(from.spec_valid() && to.spec_valid() && from.spec_lt(
                *to,
            )),
            InputError::EmptyInput => stations@.len() == 0,
        },
        r matches Ok(e) ==> {
            &&& from.spec_valid() && to.spec_valid() && from.spec_lt(*to)
            &&& stations@.len() >= 1
            &&& e.wf()
            &&& e.spec_next() == 0
            &&& e.in_flight() == 0
            &&& e.spec_outcomes() == Seq::<TaskOutcome>::empty()
            &&& e.spec_limit() == limit
            &&& exists|cs: Seq<crate::chunks::DateChunk>|
                spec_chunks_tile(*from, *to, cs) && plan_post(stations@, cs, e.spec_items())
        },
{
    let chunks = match yearly_chunks(from, to) {
        Ok(cs) => cs,
        Err(e) => {
            return Err(e);
        },
    };
    let items = match plan(stations, &chunks) {
        Ok(items) => items,
        Err(e) => {
            return Err(e);
        },
    };
    let ghost cs = chunks@;
    let e = Executor::new(items, limit);
    proof {
        assert(spec_chunks_tile(*from, *to, cs) && plan_post(stations@, cs, e.spec_items()));
    }
    Ok(e)
}

} // verus!
