//! Task outcomes and their textual failure records.

use vstd::prelude::*;
use crate::chunks::DateChunk;
use crate::dates::spec_date_text;
use crate::rows::PrecipitationRow;

verus! {

/// One task's failure: which station and date window, and why.
#[derive(Debug)]
pub struct FetchFailure {
    pub station_id: String,
    pub chunk: DateChunk,
    pub message: String,
}

impl Clone for FetchFailure {
    fn clone(&self) -> (r: Self)
        ensures
            r == *self,
    {
        FetchFailure {
            station_id: self.station_id.clone(),
            chunk: self.chunk,
            message: self.message.clone(),
        }
    }
}

/// What one fetch task produced; transient between task completion and
/// aggregation.
#[derive(Debug)]
pub enum TaskOutcome {
    Success(Vec<PrecipitationRow>),
    Failure(FetchFailure),
}

/// The batch-level terminal error: how many tasks failed, and the full
/// per-task listing.
#[derive(Debug)]
pub struct AggregateFailure {
    pub failure_count: usize,
    pub message: String,
}

/// The one-line record of a failure:
/// `<stationId> <chunkStart>..<chunkEnd>: <errorMessage>`.
pub open spec fn spec_failure_line(f: FetchFailure) -> Seq<char> {
    f.station_id@ + " "@ + spec_date_text(f.chunk.start) + ".."@ + spec_date_text(f.chunk.end)
        + ": "@ + f.message@
}

/// The failures among a sequence of outcomes, in order.
pub open spec fn spec_failures(s: Seq<TaskOutcome>) -> Seq<FetchFailure>
    decreases s.len(),
{
    if s.len() == 0 {
        Seq::empty()
    } else {
        spec_failures(s.drop_last()) + (match s.last() {
            TaskOutcome::Failure(f) => seq![f],
            TaskOutcome::Success(_) => Seq::empty(),
        })
    }
}

/// All successful rows among a sequence of outcomes, concatenated in
/// outcome order.
pub open spec fn spec_rows(s: Seq<TaskOutcome>) -> Seq<PrecipitationRow>
    decreases s.len(),
{
    if s.len() == 0 {
        Seq::empty()
    } else {
        spec_rows(s.drop_last()) + (match s.last() {
            TaskOutcome::Success(rows) => rows@,
            TaskOutcome::Failure(_) => Seq::empty(),
        })
    }
}

/// The number of rows the successful outcomes carry, summed.
pub open spec fn spec_row_total(s: Seq<TaskOutcome>) -> int
    decreases s.len(),
{
    if s.len() == 0 {
        0
    } else {
        spec_row_total(s.drop_last()) + (match s.last() {
            TaskOutcome::Success(rows) => rows@.len() as int,
            TaskOutcome::Failure(_) => 0,
        })
    }
}

/// Failure records joined by single newlines, in order.
pub open spec fn spec_joined_lines(fs: Seq<FetchFailure>) -> Seq<char>
    decreases fs.len(),
{
    if fs.len() == 0 {
        Seq::empty()
    } else if fs.len() == 1 {
        spec_failure_line(fs[0])
    } else {
        spec_joined_lines(fs.drop_last()) + "\n"@ + spec_failure_line(fs.last())
    }
}

/// Render one failure record.
pub fn failure_line(f: &FetchFailure) -> (r: String)
    ensures
        r@ == spec_failure_line(*f),
{
    let mut s = String::new();
    s.append(f.station_id.as_str());
    s.append(" ");
    let start = f.chunk.start.render();
    s.append(start.as_str());
    s.append("..");
    let end = f.chunk.end.render();
    s.append(end.as_str());
    s.append(": ");
    s.append(f.message.as_str());
    proof {
        assert(s@ =~= spec_failure_line(*f));
    }
    s
}

} // verus!
