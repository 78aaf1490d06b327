//! The coordinator: validates the configuration, partitions the candidate
//! space, runs one worker per range, and publishes the arbiter's answer.

use vstd::prelude::*;
use crate::predicate::Instance;
use crate::ranges::{contiguous_cover, lemma_partition_in_bound, partition, SearchRange};
use crate::worker::{run_worker, SearchState};

verus! {

/// A configuration rejected before any worker starts.
#[derive(Clone, Copy, PartialEq, Eq, Structural, Debug)]
pub enum ConfigError {
    /// The worker count was zero.
    ZeroWorkers,
    /// The search bound was zero.
    ZeroBound,
}

/// The least candidate the workers have not yet scanned, once the first `i`
/// ranges of a partition are done: the start of range `i`, or the bound when
/// every range is done.
spec fn scanned_below(rs: Seq<SearchRange>, i: int, bound: u64) -> int {
    if i >= rs.len() {
        bound as int
    } else {
        rs[i].start as int
    }
}

/// Searches `[0, bound)` for a candidate the instance accepts, scanning
/// `workers` disjoint contiguous ranges that together cover the space.
///
/// A zero worker count or a zero bound is rejected before any work starts.
/// Otherwise the result is `Ok(Some(c))` for a satisfying candidate `c` —
/// some satisfying candidate, not necessarily the smallest — whenever one
/// exists below the bound, and `Ok(None)` exactly when none exists.
#[verifier::rlimit(100)]
pub fn search<I: Instance>(instance: &I, bound: u64, workers: usize) -> (r: Result<
    Option<u64>,
    ConfigError,
>)
    ensures
        r == Err::<Option<u64>, ConfigError>(ConfigError::ZeroWorkers) <==> workers == 0,
        r == Err::<Option<u64>, ConfigError>(ConfigError::ZeroBound) <==> (workers != 0 && bound
            == 0),
        match r {
            Ok(found) => match found {
                Some(c) => c < bound && instance.accepts(c),
                None => forall|c: u64| c < bound ==> !instance.accepts(c),
            },
            Err(_) => workers == 0 || bound == 0,
        },
        (workers >= 1 && bound >= 1 && (exists|c: u64| c < bound && instance.accepts(c))) ==> (r
            matches Ok(Some(c)) && c < bound && instance.accepts(c)),
{
    if workers == 0 {
        return Err(ConfigError::ZeroWorkers);
    }
    if bound == 0 {
        return Err(ConfigError::ZeroBound);
    }
    let ranges = partition(bound, workers);
    let mut state = SearchState::new();
    let mut i: usize = 0;
    while i < ranges.len()
        invariant
            contiguous_cover(ranges@, bound),
            i <= ranges@.len(),
            state.consistent(),
            state.slot@ is None ==> forall|c: u64| c < scanned_below(ranges@, i as int, bound)
                ==> !instance.accepts(c),
            state.slot@ matches Some(c) ==> c < bound && instance.accepts(c),
        decreases ranges@.len() - i,
    {
        let range = ranges[i];
        let ghost pre = state;
        let _outcome = run_worker(instance, range, &mut state);
        i = i + 1;
        proof {
            let rs = ranges@;
            let ii = i as int;
            assert(range == rs[ii - 1]);
            if ii < rs.len() {
                assert(rs[ii - 1].end == rs[ii].start);
            }
            assert(scanned_below(rs, ii, bound) == range.end as int);
            if pre.slot@ is None && state.slot@ is Some {
                assert forall|c: u64| state.slot@ == Some(c) implies c < bound
                    && instance.accepts(c) by {
                    lemma_partition_in_bound(rs, bound, ii - 1, c);
                }
            }
            if state.slot@ is None {
                assert(pre.slot@ is None && !pre.cancelled);
                assert forall|c: u64| c < scanned_below(rs, ii, bound) implies !instance.accepts(
                    c,
                ) by {
                    if range.start <= c {
                        assert(range.contains(c));
                    } else {
                        assert((c as int) < scanned_below(rs, ii - 1, bound));
                    }
                }
            }
        }
    }
    Ok(state.slot.get())
}

/// Relies on `num_cpus::get`: its documentation promises a result of at
/// least 1, the machine's available parallelism.
#[verifier::external_body]
fn available_workers() -> (r: usize)
    ensures
        1 <= r,
{
    num_cpus::get()
}

/// `search` with the worker count defaulted to the machine's available
/// parallelism, which is always at least one: only a zero bound is rejected.
pub fn search_auto<I: Instance>(instance: &I, bound: u64) -> (r: Result<Option<u64>, ConfigError>)
    ensures
        r == Err::<Option<u64>, ConfigError>(ConfigError::ZeroBound) <==> bound == 0,
        match r {
            Ok(found) => match found {
                Some(c) => c < bound && instance.accepts(c),
                None => forall|c: u64| c < bound ==> !instance.accepts(c),
            },
            Err(_) => bound == 0,
        },
        (bound >= 1 && (exists|c: u64| c < bound && instance.accepts(c))) ==> (r matches Ok(
            Some(c),
        ) && c < bound && instance.accepts(c)),
{
    let workers = available_workers();
    search(instance, bound, workers)
}

} // verus!
