//! Work-item planning: the cross product of stations and date chunks,
//! stations outer, chunks inner.

use vstd::prelude::*;
use vstd::arithmetic::div_mod::{lemma_fundamental_div_mod, lemma_fundamental_div_mod_converse};
use crate::chunks::DateChunk;
use crate::errors::InputError;
use crate::stations::Station;

verus! {

/// One (station, chunk) pair: exactly one independent fetch task,
/// consumed once by the executor and never mutated.
#[derive(Debug)]
pub struct WorkItem {
    pub station: Station,
    pub chunk: DateChunk,
}

impl Clone for WorkItem {
    fn clone(&self) -> (r: Self)
        ensures
            r == *self,
    {
        WorkItem { station: self.station.clone(), chunk: self.chunk }
    }
}

/// The planned sequence: one item per (station, chunk) pair, stations
/// outer, chunks inner, so item `k` pairs station `k / m` with chunk
/// `k % m` where `m` is the chunk count.
pub open spec fn plan_post(
    stations: Seq<Station>,
    chunks: Seq<DateChunk>,
    r: Seq<WorkItem>,
) -> bool {
    &&& r.len() == stations.len() * chunks.len()
    &&& forall|k: int|
        0 <= k < r.len() ==> (#[trigger] r[k]).station == stations[k / chunks.len() as int]
            && r[k].chunk == chunks[k % chunks.len() as int]
}

/// Plan the workload. Pure and deterministic; an empty chunk list gives
/// an empty plan, an empty station list is rejected.
pub fn plan(stations: &Vec<Station>, chunks: &Vec<DateChunk>) -> (r: Result<
    Vec<WorkItem>,
    InputError,
>)
    ensures
        r matches Err(e) ==> e == InputError::EmptyInput && stations@.len() == 0,
        r matches Ok(items) ==> stations@.len() >= 1 && plan_post(stations@, chunks@, items@),
{
    if stations.len() == 0 {
        return Err(InputError::EmptyInput);
    }
    let n = stations.len();
    let m = chunks.len();
    let mut items: Vec<WorkItem> = Vec::new();
    let mut i: usize = 0;
    while i < n
        invariant
            n == stations@.len(),
            m == chunks@.len(),
            i <= n,
            items@.len() == i * m,
            forall|k: int|
                0 <= k < items@.len() ==> (#[trigger] items@[k]).station == stations@[k / m as int]
                    && items@[k].chunk == chunks@[k % m as int],
        decreases n - i,
    {
        let mut j: usize = 0;
        while j < m
            invariant
                n == stations@.len(),
                m == chunks@.len(),
                i < n,
                j <= m,
                items@.len() == i * m + j,
                forall|k: int|
                    0 <= k < items@.len() ==> (#[trigger] items@[k]).station == stations@[k
                        / m as int] && items@[k].chunk == chunks@[k % m as int],
            decreases m - j,
        {
            items.push(WorkItem { station: stations[i].clone(), chunk: chunks[j] });
            proof {
                lemma_fundamental_div_mod_converse(
                    (i * m + j) as int,
                    m as int,
                    i as int,
                    j as int,
                );
            }
            j += 1;
        }
        proof {
            assert((i + 1) * m == i * m + m) by (nonlinear_arith);
        }
        i += 1;
    }
    Ok(items)
}

/// Planning is deterministic: any two sequences that satisfy the plan
/// contract for the same inputs are equal, item for item. Calling `plan`
/// twice with identical inputs therefore yields an identical,
/// order-equal work-item sequence.
pub proof fn lemma_plan_deterministic(
    stations: Seq<Station>,
    chunks: Seq<DateChunk>,
    r1: Seq<WorkItem>,
    r2: Seq<WorkItem>,
)
    requires
        plan_post(stations, chunks, r1),
        plan_post(stations, chunks, r2),
    ensures
        r1 == r2,
{
    assert forall|k: int| 0 <= k < r1.len() implies r1[k] == r2[k] by {
        assert(r1[k].station == r2[k].station);
        assert(r1[k].chunk == r2[k].chunk);
    }
    assert(r1 =~= r2);
}

/// The planned items are pairwise distinct pairs: when the stations and
/// the chunks are each free of duplicates, no two work items coincide.
pub proof fn lemma_plan_items_distinct(
    stations: Seq<Station>,
    chunks: Seq<DateChunk>,
    r: Seq<WorkItem>,
    k1: int,
    k2: int,
)
    requires
        plan_post(stations, chunks, r),
        forall|a: int, b: int|
            0 <= a < stations.len() && 0 <= b < stations.len() && a != b ==> stations[a]
                != stations[b],
        forall|a: int, b: int|
            0 <= a < chunks.len() && 0 <= b < chunks.len() && a != b ==> chunks[a] != chunks[b],
        0 <= k1 < r.len(),
        0 <= k2 < r.len(),
        k1 != k2,
    ensures
        r[k1].station != r[k2].station || r[k1].chunk != r[k2].chunk,
{
    let m = chunks.len() as int;
    assert(m > 0) by {
        if m == 0 {
            assert(r.len() == stations.len() * 0);
        }
    }
    lemma_fundamental_div_mod(k1, m);
    lemma_fundamental_div_mod(k2, m);
    vstd::arithmetic::div_mod::lemma_div_pos_is_pos(k1, m);
    vstd::arithmetic::div_mod::lemma_div_pos_is_pos(k2, m);
    vstd::arithmetic::div_mod::lemma_mod_bound(k1, m);
    vstd::arithmetic::div_mod::lemma_mod_bound(k2, m);
    assert(k1 / m < stations.len() && k2 / m < stations.len()) by {
        if k1 / m >= stations.len() {
            vstd::arithmetic::mul::lemma_mul_inequality(stations.len() as int, k1 / m, m);
            assert(false);
        }
        if k2 / m >= stations.len() {
            vstd::arithmetic::mul::lemma_mul_inequality(stations.len() as int, k2 / m, m);
            assert(false);
        }
    }
    if k1 / m == k2 / m && k1 % m == k2 % m {
        assert(k1 == m * (k1 / m) + k1 % m);
        assert(k2 == m * (k2 / m) + k2 % m);
        assert(false);
    }
}

} // verus!
