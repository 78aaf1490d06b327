//! Parallel bounded brute-force search.
//!
//! Given a finite candidate space `[0, bound)` and a deterministic membership
//! predicate, the library finds a candidate satisfying the predicate by
//! splitting the space into disjoint contiguous ranges, scanning each range in
//! ascending order, and stopping all remaining work as soon as one scan
//! succeeds. The shipped predicate is a proof-of-work style check: the first
//! two bytes of a SHA-256 digest of a payload and the candidate must fall
//! below a difficulty threshold.

pub mod instances;
pub mod predicate;
pub mod ranges;
pub mod search;
pub mod slot;
pub mod worker;
