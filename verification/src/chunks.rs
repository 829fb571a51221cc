//! Date range chunking: an inclusive-start/exclusive-end range is split
//! into calendar-year-aligned sub-ranges, so that every fetch task covers
//! at most one calendar year (a limit the upstream provider imposes).

use vstd::prelude::*;
use crate::dates::Date;
use crate::errors::InputError;

verus! {

/// A half-open date sub-range `[start, end)` handed to one fetch task.
#[derive(Clone, Copy, PartialEq, Eq, Structural, Debug)]
pub struct DateChunk {
    pub start: Date,
    pub end: Date,
}

/// January 1 of the given year.
pub open spec fn spec_jan1(y: int) -> Date {
    Date { year: y as u32, month: 1, day: 1 }
}

/// The chunk list `r` tiles `[from, to)` with year-aligned cuts:
/// contiguous, non-overlapping, covering exactly the range, every chunk
/// after the first starting on January 1, and no chunk crossing a
/// calendar-year boundary.
pub open spec fn spec_chunks_tile(from: Date, to: Date, r: Seq<DateChunk>) -> bool {
    &&& r.len() >= 1
    &&& r[0].start == from
    &&& r[r.len() - 1].end == to
    &&& forall|i: int| 0 <= i < r.len() ==> (#[trigger] r[i]).start.spec_lt(r[i].end)
    &&& forall|i: int| 1 <= i < r.len() ==> (#[trigger] r[i]).start == r[i - 1].end
    &&& forall|i: int|
        1 <= i < r.len() ==> (#[trigger] r[i]).start.month == 1 && r[i].start.day == 1
    &&& forall|i: int|
        0 <= i < r.len() ==> (#[trigger] r[i]).end.year == r[i].start.year || r[i].end
            == spec_jan1(r[i].start.year + 1)
    &&& forall|i: int|
        0 <= i < r.len() ==> (#[trigger] r[i]).start.spec_valid() && r[i].end.spec_valid()
}

/// In a tiling, no chunk ends past the range's end.
proof fn lemma_tile_ends_bounded(from: Date, to: Date, r: Seq<DateChunk>)
    requires
        spec_chunks_tile(from, to, r),
    ensures
        forall|i: int| 0 <= i < r.len() ==> !to.spec_lt((#[trigger] r[i]).end),
    decreases r.len(),
{
    if r.len() > 1 {
        let m = r[r.len() - 2].end;
        let prefix = r.drop_last();
        assert(spec_chunks_tile(from, m, prefix)) by {
            assert(forall|i: int| 0 <= i < prefix.len() ==> prefix[i] == r[i]);
        }
        lemma_tile_ends_bounded(from, m, prefix);
        assert forall|i: int| 0 <= i < r.len() implies !to.spec_lt((#[trigger] r[i]).end) by {
            if i < r.len() - 1 {
                assert(prefix[i] == r[i]);
                assert(!m.spec_lt(r[i].end));
                assert(m == r[r.len() - 1].start);
                assert(m.spec_lt(to));
            }
        }
    }
}

/// The first chunk of a tiling is forced: the whole range when it ends
/// by the next January 1, else the piece up to that boundary.
proof fn lemma_tile_first_chunk(from: Date, to: Date, r: Seq<DateChunk>)
    requires
        spec_chunks_tile(from, to, r),
    ensures
        !spec_jan1(from.year + 1).spec_lt(to) ==> r =~= seq![DateChunk { start: from, end: to }],
        spec_jan1(from.year + 1).spec_lt(to) ==> r.len() >= 2 && r[0] == (DateChunk {
            start: from,
            end: spec_jan1(from.year + 1),
        }),
{
    let b = spec_jan1(from.year + 1);
    lemma_tile_ends_bounded(from, to, r);
    if r.len() >= 2 {
        // The first chunk's end is the next chunk's start, a January 1;
        // a January 1 of the start's own year would not lie after it.
        assert(r[0].end == r[1].start);
        assert(r[0].end.month == 1 && r[0].end.day == 1);
        assert(r[0].end == b) by {
            if r[0].end.year == r[0].start.year {
                assert(from.spec_lt(r[0].end));
            }
        }
        // And that boundary lies strictly inside the range.
        assert(b.spec_lt(to)) by {
            assert(r[1].start.spec_lt(r[1].end));
            assert(!to.spec_lt(r[1].end));
        }
    } else {
        assert(r[0].start == from && r[0].end == to);
        if b.spec_lt(to) {
            // A one-chunk tiling would make the range cross the boundary.
            assert(r[0].end.year == r[0].start.year || r[0].end == b);
        }
    }
}

/// A range has exactly one year-aligned tiling: any two sequences that
/// tile the same range are equal. Together with the chunking contract,
/// re-chunking the same range can only ever give the same chunks.
pub proof fn lemma_chunks_tile_unique(
    from: Date,
    to: Date,
    r1: Seq<DateChunk>,
    r2: Seq<DateChunk>,
)
    requires
        spec_chunks_tile(from, to, r1),
        spec_chunks_tile(from, to, r2),
    ensures
        r1 == r2,
    decreases r1.len(),
{
    let b = spec_jan1(from.year + 1);
    lemma_tile_first_chunk(from, to, r1);
    lemma_tile_first_chunk(from, to, r2);
    if !b.spec_lt(to) {
        assert(r1 =~= r2);
    } else {
        let tail1 = r1.drop_first();
        let tail2 = r2.drop_first();
        assert(spec_chunks_tile(b, to, tail1)) by {
            assert(forall|i: int| 0 <= i < tail1.len() ==> tail1[i] == r1[i + 1]);
        }
        assert(spec_chunks_tile(b, to, tail2)) by {
            assert(forall|i: int| 0 <= i < tail2.len() ==> tail2[i] == r2[i + 1]);
        }
        lemma_chunks_tile_unique(b, to, tail1, tail2);
        assert(r1 =~= r2) by {
            assert(forall|i: int| 1 <= i < r1.len() ==> r1[i] == tail1[i - 1]);
            assert(forall|i: int| 1 <= i < r2.len() ==> r2[i] == tail2[i - 1]);
        }
    }
}

/// Split `[from, to)` at every January 1 strictly inside the range.
///
/// Rejects malformed dates and empty or inverted ranges; otherwise the
/// result tiles the range exactly (see [`spec_chunks_tile`]).
#[verifier::rlimit(60)]
pub fn yearly_chunks(from: &Date, to: &Date) -> (r: Result<Vec<DateChunk>, InputError>)
    ensures
        r matches Err(e) ==> e == InputError::InvalidInput && !(from.spec_valid()
            && to.spec_valid() && from.spec_lt(*to)),
        r matches Ok(cs) ==> from.spec_valid() && to.spec_valid() && from.spec_lt(*to)
            && spec_chunks_tile(*from, *to, cs@),
{
    if !from.is_valid() || !to.is_valid() || !from.lt(to) {
        return Err(InputError::InvalidInput);
    }
    let mut chunks: Vec<DateChunk> = Vec::new();
    let mut start: Date = *from;
    let mut y: u32 = from.year;
    loop
        invariant_except_break
            start.spec_valid(),
            y == start.year,
            start.spec_lt(*to),
            y <= to.year,
            chunks@.len() == 0 ==> start == *from,
            chunks@.len() >= 1 ==> chunks@[0].start == *from && chunks@[chunks@.len() - 1].end
                == start,
            chunks@.len() >= 1 ==> start.month == 1 && start.day == 1,
        invariant
            from.spec_valid(),
            to.spec_valid(),
            from.spec_lt(*to),
            forall|i: int|
                0 <= i < chunks@.len() ==> (#[trigger] chunks@[i]).start.spec_lt(chunks@[i].end),
            forall|i: int|
                1 <= i < chunks@.len() ==> (#[trigger] chunks@[i]).start == chunks@[i - 1].end,
            forall|i: int|
                1 <= i < chunks@.len() ==> (#[trigger] chunks@[i]).start.month == 1
                    && chunks@[i].start.day == 1,
            forall|i: int|
                0 <= i < chunks@.len() ==> (#[trigger] chunks@[i]).end.year
                    == chunks@[i].start.year || chunks@[i].end == spec_jan1(
                    chunks@[i].start.year + 1,
                ),
            forall|i: int|
                0 <= i < chunks@.len() ==> (#[trigger] chunks@[i]).start.spec_valid()
                    && chunks@[i].end.spec_valid(),
        ensures
            spec_chunks_tile(*from, *to, chunks@),
        decreases to.year - y,
    {
        let boundary = Date { year: y + 1, month: 1, day: 1 };
        if !boundary.lt(to) {
            // to <= boundary: the range ends in this calendar year, or
            // exactly on its January 1 boundary.
            chunks.push(DateChunk { start, end: *to });
            break;
        }
        chunks.push(DateChunk { start, end: boundary });
        start = boundary;
        y = y + 1;
    }
    Ok(chunks)
}

} // verus!
