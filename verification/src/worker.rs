//! The worker scan protocol: one pass over a range of candidates, polling a
//! cancellation signal and racing for the result slot.

use vstd::prelude::*;
use crate::predicate::Instance;
use crate::ranges::SearchRange;
use crate::slot::ResultSlot;

verus! {

/// The coordination state a run shares among its workers: the advisory
/// cancellation signal and the result slot. The signal starts unset and is
/// set exactly when a worker publishes into the slot; it is only an
/// optimization to cut wasted work short, never what decides the winner.
///
/// The library holds this state exclusively (`&mut`); a threaded caller
/// splits it into an atomic flag and a lock-guarded slot with the same
/// meaning.
pub struct SearchState {
    /// Advisory signal that some worker has already published a result.
    pub cancelled: bool,
    /// The lock-guarded location of the published answer.
    pub slot: ResultSlot,
}

impl SearchState {
    /// In an undisturbed run the signal is set exactly when the slot is
    /// occupied: the winning worker sets both together.
    pub open spec fn consistent(self) -> bool {
        self.cancelled <==> self.slot@ is Some
    }

    /// Fresh state for a run: signal unset, slot empty.
    pub fn new() -> (r: SearchState)
        ensures
            !r.cancelled,
            r.slot@ is None,
    {
        SearchState { cancelled: false, slot: ResultSlot::new() }
    }
}

/// The terminal state a worker's scan reaches.
#[derive(Clone, Copy, PartialEq, Eq, Structural, Debug)]
pub enum WorkerOutcome {
    /// The worker found a satisfying candidate and won the race to publish it.
    Found(u64),
    /// The worker found a satisfying candidate, but another had already
    /// published one.
    LostRace,
    /// The worker scanned its whole range without a satisfying candidate.
    Exhausted,
    /// The worker observed the cancellation signal and stopped early.
    Cancelled,
}

/// Scans `range` in ascending order. For each candidate the worker first
/// polls the cancellation signal and stops if it is set; otherwise it
/// evaluates the predicate, and on success tries to publish the candidate:
/// winning the race sets the signal and ends the scan as `Found`, losing it
/// ends the scan as `LostRace`. A range exhausted without a match ends as
/// `Exhausted`. The signal is polled once per candidate, so cancellation
/// latency is bounded by one evaluation.
pub fn run_worker<I: Instance>(instance: &I, range: SearchRange, state: &mut SearchState) -> (outcome: WorkerOutcome)
    ensures
        match outcome {
            WorkerOutcome::Found(c) => {
                &&& !old(state).cancelled
                &&& old(state).slot@ is None
                &&& range.contains(c)
                &&& instance.accepts(c)
                &&& forall|x: u64| range.start <= x < c ==> !instance.accepts(x)
                &&& final(state).slot@ == Some(c)
                &&& final(state).cancelled
            },
            WorkerOutcome::LostRace => {
                &&& !old(state).cancelled
                &&& old(state).slot@ is Some
                &&& *final(state) == *old(state)
                &&& exists|c: u64| range.contains(c) && instance.accepts(c)
            },
            WorkerOutcome::Exhausted => {
                &&& *final(state) == *old(state)
                &&& (old(state).cancelled ==> range.start >= range.end)
                &&& (!old(state).cancelled ==> forall|c: u64| range.contains(c)
                    ==> !instance.accepts(c))
            },
            WorkerOutcome::Cancelled => {
                &&& old(state).cancelled
                &&& range.start < range.end
                &&& *final(state) == *old(state)
            },
        },
{
    let mut candidate: u64 = range.start;
    while candidate < range.end
        invariant
            range.start <= candidate,
            *state == *old(state),
            candidate > range.start ==> !old(state).cancelled,
            forall|x: u64| range.start <= x < candidate ==> !instance.accepts(x),
        decreases range.end - candidate,
    {
        if state.cancelled {
            return WorkerOutcome::Cancelled;
        }
        if instance.evaluate(candidate) {
            if state.slot.try_publish(candidate) {
                state.cancelled = true;
                return WorkerOutcome::Found(candidate);
            }
            proof {
                assert(range.contains(candidate) && instance.accepts(candidate));
                assert(*state == *old(state));
            }
            return WorkerOutcome::LostRace;
        }
        candidate = candidate + 1;
    }
    WorkerOutcome::Exhausted
}

} // verus!
