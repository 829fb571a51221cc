//! All-or-nothing aggregation of task outcomes: either every task
//! succeeded and the rows are combined, or the whole batch reports one
//! failure carrying the full per-task listing.

use vstd::prelude::*;
use crate::outcome::{
    failure_line, spec_failure_line, spec_failures, spec_joined_lines, spec_row_total, spec_rows,
    AggregateFailure, FetchFailure, TaskOutcome,
};
use crate::rows::PrecipitationRow;

verus! {

/// What aggregation must produce for a given outcome sequence: the
/// combined rows when nothing failed, otherwise the count of failures
/// and their newline-joined records — with every collected row discarded.
pub open spec fn aggregate_post(
    s: Seq<TaskOutcome>,
    r: Result<Vec<PrecipitationRow>, AggregateFailure>,
) -> bool {
    if spec_failures(s).len() == 0 {
        r matches Ok(rows) && rows@ == spec_rows(s)
    } else {
        r matches Err(f) && f.failure_count as int == spec_failures(s).len() && f.message@
            == spec_joined_lines(spec_failures(s))
    }
}

/// Combine the complete outcome sequence into the terminal result.
pub fn aggregate(outcomes: Vec<TaskOutcome>) -> (r: Result<
    Vec<PrecipitationRow>,
    AggregateFailure,
>)
    ensures
        aggregate_post(outcomes@, r),
{
    let ghost orig = outcomes@;
    let mut outcomes = outcomes;
    let mut rows: Vec<PrecipitationRow> = Vec::new();
    let mut fails: Vec<FetchFailure> = Vec::new();
    let ghost mut k: int = 0;
    proof {
        assert(orig.take(0) =~= Seq::<TaskOutcome>::empty());
    }
    while outcomes.len() > 0
        invariant
            0 <= k <= orig.len(),
            outcomes@ == orig.skip(k),
            rows@ == spec_rows(orig.take(k)),
            fails@ == spec_failures(orig.take(k)),
        decreases outcomes@.len(),
    {
        proof {
            assert(orig.skip(k)[0] == orig[k]);
            assert(orig.skip(k).remove(0) =~= orig.skip(k + 1));
            assert(orig.take(k + 1).drop_last() =~= orig.take(k));
            assert(orig.take(k + 1).last() == orig[k]);
        }
        let o = outcomes.remove(0);
        match o {
            TaskOutcome::Success(mut rs) => {
                rows.append(&mut rs);
            },
            TaskOutcome::Failure(f) => {
                fails.push(f);
            },
        }
        proof {
            k = k + 1;
        }
    }
    proof {
        assert(orig.take(k) =~= orig);
    }
    if fails.len() == 0 {
        return Ok(rows);
    }
    let mut msg = String::new();
    let mut i: usize = 0;
    proof {
        assert(fails@.take(0) =~= Seq::<FetchFailure>::empty());
    }
    while i < fails.len()
        invariant
            i <= fails@.len(),
            fails@.len() >= 1,
            fails@ == spec_failures(orig),
            msg@ == spec_joined_lines(fails@.take(i as int)),
        decreases fails@.len() - i,
    {
        proof {
            assert(fails@.take(i + 1).drop_last() =~= fails@.take(i as int));
            assert(fails@.take(i + 1).last() == fails@[i as int]);
            assert(fails@.take(i + 1)[0] == fails@[0]);
        }
        if i > 0 {
            msg.append("\n");
        }
        let line = failure_line(&fails[i]);
        msg.append(line.as_str());
        proof {
            if i == 0 {
                assert(msg@ =~= spec_joined_lines(fails@.take(1)));
            }
        }
        i += 1;
    }
    proof {
        assert(fails@.take(fails@.len() as int) =~= fails@);
    }
    Err(AggregateFailure { failure_count: fails.len(), message: msg })
}

/// The sequential fallback's tail end: one fetch outcome, covering the
/// whole station set and range, aggregated exactly as a one-task batch.
pub fn finish_sequential(outcome: TaskOutcome) -> (r: Result<
    Vec<PrecipitationRow>,
    AggregateFailure,
>)
    ensures
        aggregate_post(seq![outcome], r),
        outcome matches TaskOutcome::Success(rows) ==> r matches Ok(rr) && rr@ == rows@,
        outcome matches TaskOutcome::Failure(f) ==> r matches Err(af) && af.failure_count == 1
            && af.message@ == spec_failure_line(f),
{
    let ghost o = outcome;
    let mut v: Vec<TaskOutcome> = Vec::new();
    v.push(outcome);
    proof {
        assert(v@ =~= seq![o]);
        lemma_singleton_outcome(o);
    }
    aggregate(v)
}

/// A one-outcome batch aggregates to exactly that outcome's content:
/// its rows on success, its single failure record otherwise.
pub proof fn lemma_singleton_outcome(o: TaskOutcome)
    ensures
        spec_rows(seq![o]) == (match o {
            TaskOutcome::Success(rows) => rows@,
            TaskOutcome::Failure(_) => Seq::<PrecipitationRow>::empty(),
        }),
        spec_failures(seq![o]) == (match o {
            TaskOutcome::Failure(f) => seq![f],
            TaskOutcome::Success(_) => Seq::<FetchFailure>::empty(),
        }),
        o matches TaskOutcome::Failure(f) ==> spec_joined_lines(spec_failures(seq![o]))
            == spec_failure_line(f),
{
    reveal_with_fuel(spec_rows, 2);
    reveal_with_fuel(spec_failures, 2);
    reveal_with_fuel(spec_joined_lines, 2);
    let s = seq![o];
    assert(s.drop_last() =~= Seq::<TaskOutcome>::empty());
    assert(s.last() == o);
    match o {
        TaskOutcome::Success(rows) => {
            assert(spec_rows(s) =~= rows@);
            assert(spec_failures(s) =~= Seq::<FetchFailure>::empty());
        },
        TaskOutcome::Failure(f) => {
            assert(spec_rows(s) =~= Seq::<PrecipitationRow>::empty());
            assert(spec_failures(s) =~= seq![f]);
        },
    }
}

/// Given the same single fetch outcome, the parallel orchestration (a
/// one-item plan) and the sequential fallback are forced to matching
/// results: the same rows on success, the same failure report otherwise.
pub proof fn lemma_single_task_equivalence(
    o: TaskOutcome,
    rp: Result<Vec<PrecipitationRow>, AggregateFailure>,
    rs: Result<Vec<PrecipitationRow>, AggregateFailure>,
)
    requires
        aggregate_post(seq![o], rp),
        aggregate_post(seq![o], rs),
    ensures
        match (rp, rs) {
            (Ok(a), Ok(b)) => a@ == b@,
            (Err(a), Err(b)) => a.failure_count == b.failure_count && a.message@ == b.message@,
            _ => false,
        },
{
}

/// When every task succeeds, the combined result holds exactly the sum
/// of the per-task row counts.
pub proof fn lemma_all_success_row_total(s: Seq<TaskOutcome>)
    requires
        spec_failures(s).len() == 0,
    ensures
        spec_rows(s).len() == spec_row_total(s),
    decreases s.len(),
{
    if s.len() > 0 {
        lemma_all_success_row_total(s.drop_last());
    }
}

} // verus!
