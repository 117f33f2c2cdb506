//! The Fibonacci numbers by one forward pass.

use crate::sequence::{fib, lemma_fib_start};
use crate::wrapped::{fib_u64, lemma_fib_u64_exact, lemma_fib_u64_recurrence, LAST_EXACT_INDEX};
use vstd::prelude::*;

verus! {

/// Computes the n-th Fibonacci number by walking the sequence from its start,
/// keeping the last two entries.
///
/// The additions wrap at 64 bits, so the result is the n-th Fibonacci number
/// modulo 2^64; up to index 93 that is the number itself. Takes fewer than `n`
/// additions and no memory beyond a few words.
pub fn calculate_fibonacci_optimized(n: u32) -> (result: u64)
    ensures
        result == fib_u64(n as nat),
        n <= LAST_EXACT_INDEX ==> result == fib(n as nat),
{
    proof {
        lemma_fib_start();
        lemma_fib_u64_exact(n as nat);
    }
    if n == 0 {
        return 0;
    }
    if n == 1 || n == 2 {
        return 1;
    }
    let mut prev: u64 = 0;
    let mut curr: u64 = 1;
    // `step` is the index of the entry that `curr` holds.
    let mut step: u32 = 1;
    while step < n
        invariant
            1 <= step <= n,
            prev == fib_u64((step - 1) as nat),
            curr == fib_u64(step as nat),
        decreases n - step,
    {
        step += 1;
        proof {
            lemma_fib_u64_recurrence(step as nat);
        }
        let next: u64 = prev.wrapping_add(curr);
        prev = curr;
        curr = next;
    }
    curr
}

} // verus!
