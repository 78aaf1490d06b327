//! Partitioning of the candidate space into per-worker ranges.

use vstd::prelude::*;

verus! {

/// A half-open interval `[start, end)` of candidate values assigned to
/// exactly one worker.
#[derive(Clone, Copy, PartialEq, Eq, Structural, Debug)]
pub struct SearchRange {
    pub start: u64,
    pub end: u64,
}

impl SearchRange {
    /// The candidates this range assigns to its worker.
    pub open spec fn contains(self, candidate: u64) -> bool {
        self.start <= candidate < self.end
    }
}

/// The size of every range but the last: the candidate space divided evenly,
/// remainder discarded.
pub open spec fn chunk_size(bound: u64, workers: usize) -> int {
    bound as int / workers as int
}

/// The ranges cover `[0, bound)` exactly, in order and without gaps: they
/// start at zero, end at `bound`, and each range begins where the previous
/// one ends.
pub open spec fn contiguous_cover(rs: Seq<SearchRange>, bound: u64) -> bool {
    &&& rs.len() >= 1
    &&& rs[0].start == 0
    &&& rs[rs.len() - 1].end == bound
    &&& (forall|i: int| 0 <= i < rs.len() ==> (#[trigger] rs[i]).start <= rs[i].end)
    &&& (forall|i: int| 0 <= i < rs.len() - 1 ==> (#[trigger] rs[i]).end == rs[i + 1].start)
}

/// Splits `[0, bound)` into `workers` disjoint, contiguous ranges that cover
/// the space exactly. Every worker but the last receives `bound / workers`
/// candidates; the last absorbs the remainder of the integer division, so the
/// union is exact even when `bound` is not evenly divisible.
pub fn partition(bound: u64, workers: usize) -> (rs: Vec<SearchRange>)
    requires
        workers >= 1,
    ensures
        rs@.len() == workers,
        contiguous_cover(rs@, bound),
        forall|i: int| 0 <= i < workers ==> (#[trigger] rs@[i]).start == i * chunk_size(bound, workers),
        forall|i: int| 0 <= i < workers - 1 ==> (#[trigger] rs@[i]).end == (i + 1) * chunk_size(bound, workers),
        rs@[workers - 1].end == bound,
        bound >= workers ==> forall|i: int| 0 <= i < workers ==> (#[trigger] rs@[i]).start < rs@[i].end,
{
    let chunk: u64 = bound / (workers as u64);
    proof {
        assert(chunk as int == chunk_size(bound, workers));
        assert(chunk as int * workers as int <= bound as int) by (nonlinear_arith)
            requires
                workers as int >= 1,
                chunk as int == bound as int / workers as int,
        ;
        assert(bound >= workers ==> chunk >= 1) by (nonlinear_arith)
            requires
                workers as int >= 1,
                chunk as int == bound as int / workers as int,
        ;
    }
    let mut rs: Vec<SearchRange> = Vec::new();
    let mut i: usize = 0;
    while i < workers
        invariant
            i <= workers,
            workers >= 1,
            chunk as int == chunk_size(bound, workers),
            chunk as int * workers as int <= bound as int,
            bound >= workers ==> chunk >= 1,
            rs@.len() == i,
            forall|k: int| 0 <= k < i ==> (#[trigger] rs@[k]).start == k * chunk as int,
            forall|k: int| 0 <= k < i ==> (#[trigger] rs@[k]).end
                == (if k == workers - 1 { bound as int } else { (k + 1) * chunk as int }),
            forall|k: int| 0 <= k < i ==> (#[trigger] rs@[k]).start <= rs@[k].end,
            bound >= workers ==> forall|k: int| 0 <= k < i ==> (#[trigger] rs@[k]).start < rs@[k].end,
        decreases workers - i,
    {
        proof {
            let ii = i as int;
            let ck = chunk as int;
            let ww = workers as int;
            assert((ii + 1) * ck <= ww * ck) by (nonlinear_arith)
                requires
                    ii + 1 <= ww,
                    ck >= 0,
            ;
            assert(ww * ck == ck * ww) by (nonlinear_arith);
            assert(ii * ck <= (ii + 1) * ck) by (nonlinear_arith)
                requires
                    ck >= 0,
            ;
            if chunk >= 1 {
                assert(ii * ck < (ii + 1) * ck) by (nonlinear_arith)
                    requires
                        ck >= 1,
                ;
            }
        }
        let start: u64 = (i as u64) * chunk;
        let end: u64 = if i == workers - 1 {
            bound
        } else {
            ((i as u64) + 1) * chunk
        };
        rs.push(SearchRange { start, end });
        i = i + 1;
    }
    proof {
        assert(rs@[0].start == 0);
        assert forall|k: int| 0 <= k < workers as int - 1 implies (#[trigger] rs@[k]).end == rs@[k
            + 1].start by {
            assert(rs@[k].end == (k + 1) * chunk as int);
            assert(rs@[k + 1].start == (k + 1) * chunk as int);
        }
    }
    rs
}

/// Ranges earlier in the partition lie entirely below later ones.
pub proof fn lemma_partition_ordered(rs: Seq<SearchRange>, bound: u64, i: int, j: int)
    requires
        contiguous_cover(rs, bound),
        0 <= i < j < rs.len(),
    ensures
        rs[i].end <= rs[j].start,
    decreases j - i,
{
    if i + 1 < j {
        lemma_partition_ordered(rs, bound, i, j - 1);
    }
}

/// No two distinct ranges of a partition share a candidate.
pub proof fn lemma_partition_disjoint(rs: Seq<SearchRange>, bound: u64, i: int, j: int, c: u64)
    requires
        contiguous_cover(rs, bound),
        0 <= i < rs.len(),
        0 <= j < rs.len(),
        i != j,
        rs[i].contains(c),
    ensures
        !rs[j].contains(c),
{
    if i < j {
        lemma_partition_ordered(rs, bound, i, j);
    } else {
        lemma_partition_ordered(rs, bound, j, i);
    }
}

/// Every candidate below the bound falls in some range of the partition:
/// together with `lemma_partition_in_bound` and `lemma_partition_disjoint`,
/// the union of the ranges is exactly `[0, bound)`.
pub proof fn lemma_partition_covers(rs: Seq<SearchRange>, bound: u64, c: u64)
    requires
        contiguous_cover(rs, bound),
        c < bound,
    ensures
        exists|i: int| 0 <= i < rs.len() && (#[trigger] rs[i]).contains(c),
    decreases rs.len(),
{
    let last = rs.len() - 1;
    if rs[last].start <= c {
        assert(rs[last].contains(c));
    } else {
        let prefix = rs.take(last);
        let prior: u64 = rs[last].start;
        assert(prefix.len() == last);
        assert(prefix[0] == rs[0]);
        assert(prefix[prefix.len() - 1] == rs[last - 1]);
        assert(rs[last - 1].end == prior);
        assert(contiguous_cover(prefix, prior));
        lemma_partition_covers(prefix, prior, c);
        let w = choose|i: int| 0 <= i < prefix.len() && (#[trigger] prefix[i]).contains(c);
        assert(prefix[w] == rs[w]);
        assert(rs[w].contains(c));
    }
}

/// Every candidate held by some range of the partition lies below the bound.
pub proof fn lemma_partition_in_bound(rs: Seq<SearchRange>, bound: u64, i: int, c: u64)
    requires
        contiguous_cover(rs, bound),
        0 <= i < rs.len(),
        rs[i].contains(c),
    ensures
        c < bound,
{
    if i < rs.len() - 1 {
        lemma_partition_ordered(rs, bound, i, rs.len() - 1);
    }
}

} // verus!
