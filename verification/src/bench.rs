//! Support for the benchmarking harness: the iteration-count fallback rule
//! and the accumulation kernel that a timed run repeats. The harness itself
//! (timing, random inputs, reporting) lives outside the library; what it
//! accumulates and how often is pinned down here.

use vstd::prelude::*;
use crate::vector::{Vector3, spec_dot, dot_in_range};

verus! {

/// How many timed iterations a benchmark run performs when no override is
/// configured.
pub const DEFAULT_NUM_ITERATIONS: u64 = 10_000_000_000;

/// The number of timed iterations to run: the configured override where one
/// was given, and the hard-coded default otherwise.
pub fn iteration_count(configured: Option<u64>) -> (n: u64)
    ensures
        configured is Some ==> n == configured->0,
        configured is None ==> n == DEFAULT_NUM_ITERATIONS,
{
    match configured {
        Some(c) => c,
        None => DEFAULT_NUM_ITERATIONS,
    }
}

/// Runs exactly `n` iterations, each adding the dot product of `a` and `b`
/// to an accumulator that starts at zero, and returns the accumulated total:
/// precisely `n` times the dot product.
pub fn dot_sum(a: &Vector3<i64>, b: &Vector3<i64>, n: u64) -> (r: i64)
    requires
        dot_in_range(*a, *b),
        i64::MIN <= n * spec_dot(*a, *b) <= i64::MAX,
    ensures
        r == n * spec_dot(*a, *b),
{
    let d = a.dot(b);
    let mut sum: i64 = 0;
    let mut i: u64 = 0;
    while i < n
        invariant
            i <= n,
            d == spec_dot(*a, *b),
            sum == i * d,
            i64::MIN <= n * d <= i64::MAX,
        decreases n - i,
    {
        proof {
            assert(i64::MIN <= (i + 1) * d <= i64::MAX) by (nonlinear_arith)
                requires
                    0 <= i as int + 1 <= n,
                    i64::MIN <= n * d <= i64::MAX,
            ;
            assert((i + 1) * d == i * d + d) by (nonlinear_arith);
        }
        sum = sum + d;
        i = i + 1;
    }
    sum
}

} // verus!
