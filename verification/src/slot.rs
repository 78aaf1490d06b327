//! The race arbiter: a result slot written at most once per run.

use vstd::prelude::*;

verus! {

/// The single authoritative location holding the published answer of a run.
/// It starts empty and transitions to occupied at most once: `try_publish`
/// never changes an occupied slot, so whichever claim arrives first is the
/// one published, however many candidates are claimed afterwards.
///
/// The slot itself is plain data; a threaded caller must hold it behind a
/// mutual-exclusion lock so each check-and-set runs as one critical section.
pub struct ResultSlot {
    value: Option<u64>,
}

impl View for ResultSlot {
    type V = Option<u64>;

    closed spec fn view(&self) -> Option<u64> {
        self.value
    }
}

impl ResultSlot {
    /// A fresh, empty slot.
    pub fn new() -> (r: ResultSlot)
        ensures
            r@ is None,
    {
        ResultSlot { value: None }
    }

    /// The slot's current contents: the published candidate, if any.
    pub fn get(&self) -> (r: Option<u64>)
        ensures
            r == self@,
    {
        self.value
    }

    /// The check-and-set a winning worker performs: writes `candidate` only
    /// if the slot is still empty, and reports whether this call won. An
    /// occupied slot is never changed, so over any sequence of calls the
    /// slot is written at most once, by the first caller.
    pub fn try_publish(&mut self, candidate: u64) -> (won: bool)
        ensures
            won == (old(self)@ is None),
            old(self)@ is None ==> final(self)@ == Some(candidate),
            old(self)@ is Some ==> *final(self) == *old(self),
    {
        match self.value {
            None => {
                self.value = Some(candidate);
                true
            },
            Some(_) => false,
        }
    }
}

} // verus!
