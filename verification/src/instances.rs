//! Simple stub instances: membership predicates with a directly stated
//! meaning, useful where the digest puzzle is not wanted.

use vstd::prelude::*;
use crate::predicate::Instance;

verus! {

/// Accepts exactly the multiples of a fixed modulus. A zero modulus accepts
/// nothing.
#[derive(Clone, Copy, Debug)]
pub struct ModuloInstance {
    pub modulus: u64,
}

impl Instance for ModuloInstance {
    open spec fn accepts(&self, candidate: u64) -> bool {
        self.modulus != 0 && candidate % self.modulus == 0
    }

    fn evaluate(&self, candidate: u64) -> (r: bool) {
        self.modulus != 0 && candidate % self.modulus == 0
    }
}

/// Accepts no candidate at all.
#[derive(Clone, Copy, Debug)]
pub struct NeverInstance {}

impl Instance for NeverInstance {
    open spec fn accepts(&self, candidate: u64) -> bool {
        false
    }

    fn evaluate(&self, candidate: u64) -> (r: bool) {
        false
    }
}

/// Accepts exactly one candidate.
#[derive(Clone, Copy, Debug)]
pub struct ExactInstance {
    pub target: u64,
}

impl Instance for ExactInstance {
    open spec fn accepts(&self, candidate: u64) -> bool {
        candidate == self.target
    }

    fn evaluate(&self, candidate: u64) -> (r: bool) {
        candidate == self.target
    }
}

} // verus!
