//! A small HTTP request fuzzer library.
//!
//! The library generates randomized request inputs (method, header subset,
//! optional alphanumeric body), decides how a fixed-count fuzzing loop
//! advances, and renders the per-iteration report lines. Sending the
//! requests over the network is left to the surrounding binary.

use vstd::prelude::*;

mod rng;
pub mod input;
pub mod report;

verus! {

/// The fixed number of fuzzing iterations one run performs.
pub const ITERATIONS: usize = 100;

/// Whether the fuzzing loop runs another iteration when `done` iterations
/// have completed. The loop advances on every outcome, successful or not:
/// only the iteration count decides.
pub fn should_continue(done: usize) -> (r: bool)
    ensures
        r == (done < ITERATIONS),
{
    done < ITERATIONS
}

} // verus!
