//! The Fibonacci numbers by the recurrence itself.

use crate::sequence::{fib, lemma_fib_start};
use crate::wrapped::{fib_u64, lemma_fib_u64_exact, lemma_fib_u64_recurrence, LAST_EXACT_INDEX};
use vstd::prelude::*;

verus! {

/// Computes the n-th Fibonacci number by recursion on the two entries before
/// it.
///
/// The additions wrap at 64 bits, so the result is the n-th Fibonacci number
/// modulo 2^64; up to index 93 that is the number itself. The number of calls
/// grows as fast as the sequence does, and the call depth grows with `n`.
pub fn calculate_fibonacci(n: u32) -> (result: u64)
    ensures
        result == fib_u64(n as nat),
        n <= LAST_EXACT_INDEX ==> result == fib(n as nat),
    decreases n,
{
    proof {
        lemma_fib_start();
        lemma_fib_u64_exact(n as nat);
    }
    if n == 0 {
        return 0;
    }
    if n == 1 || n == 2 {
        return 1;
    }
    proof {
        lemma_fib_u64_recurrence(n as nat);
    }
    calculate_fibonacci(n - 1).wrapping_add(calculate_fibonacci(n - 2))
}

} // verus!
