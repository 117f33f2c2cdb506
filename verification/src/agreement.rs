//! The two computations against each other.

use crate::naive::calculate_fibonacci;
use crate::optimized::calculate_fibonacci_optimized;
use crate::sequence::fib;
use crate::wrapped::{fib_u64, LAST_EXACT_INDEX};
use vstd::prelude::*;

verus! {

/// Whatever the recursive and the iterative computation return on one index is
/// the same number: the Fibonacci number modulo 2^64, and up to index 93 the
/// Fibonacci number itself.
pub proof fn lemma_same_result(n: u32, naive: u64, optimized: u64)
    requires
        call_ensures(calculate_fibonacci, (n,), naive),
        call_ensures(calculate_fibonacci_optimized, (n,), optimized),
    ensures
        naive == optimized,
        naive == fib_u64(n as nat),
        n <= LAST_EXACT_INDEX ==> naive == fib(n as nat),
{
}

} // verus!
