//! The Fibonacci sequence as 64-bit arithmetic sees it.

use crate::sequence::{fib, lemma_fib_landmarks, lemma_fib_monotonic};
use vstd::arithmetic::div_mod::lemma_add_mod_noop;
use vstd::prelude::*;

verus! {

/// The largest index whose Fibonacci number fits in a `u64`.
pub const LAST_EXACT_INDEX: u32 = 93;

/// How many values a `u64` has: 2^64.
pub open spec fn u64_range() -> nat {
    0x1_0000_0000_0000_0000
}

/// The n-th Fibonacci number reduced modulo 2^64: what additions that wrap at
/// 64 bits make of the sequence.
pub open spec fn fib_u64(n: nat) -> u64 {
    (fib(n) % u64_range()) as u64
}

/// A Fibonacci number fits in a `u64` up to index 93 and no further, and just
/// there the reduced number is the number itself.
pub proof fn lemma_fib_u64_exact(n: nat)
    ensures
        fib(n) <= u64::MAX <==> n <= LAST_EXACT_INDEX,
        fib_u64(n) == fib(n) <==> n <= LAST_EXACT_INDEX,
{
    lemma_fib_landmarks();
    if n <= 93 {
        lemma_fib_monotonic(n, 93);
    } else {
        lemma_fib_monotonic(94, n);
    }
}

/// In 64 bits the recurrence holds at every index once the addition wraps.
/// With the plain sum it holds just where that sum fits, and so up to index 93.
pub proof fn lemma_fib_u64_recurrence(n: nat)
    requires
        n >= 2,
    ensures
        fib_u64(n) == fib_u64((n - 1) as nat).wrapping_add(fib_u64((n - 2) as nat)),
        fib_u64(n) == fib_u64((n - 1) as nat) + fib_u64((n - 2) as nat)
            <==> fib_u64((n - 1) as nat) + fib_u64((n - 2) as nat) <= u64::MAX,
        n <= LAST_EXACT_INDEX
            ==> fib_u64(n) == fib_u64((n - 1) as nat) + fib_u64((n - 2) as nat),
{
    lemma_add_mod_noop(
        fib((n - 1) as nat) as int,
        fib((n - 2) as nat) as int,
        u64_range() as int,
    );
    if n <= LAST_EXACT_INDEX {
        lemma_fib_u64_exact(n);
        lemma_fib_u64_exact((n - 1) as nat);
        lemma_fib_u64_exact((n - 2) as nat);
    }
}

/// In 64 bits an entry is at least the one before it just where the addition
/// that makes it does not wrap, and so up to index 93.
pub proof fn lemma_fib_u64_monotonic(n: nat)
    requires
        n >= 1,
    ensures
        fib_u64(n) <= fib_u64(n + 1) <==> fib_u64((n - 1) as nat) + fib_u64(n) <= u64::MAX,
        n < LAST_EXACT_INDEX ==> fib_u64(n) <= fib_u64(n + 1),
{
    lemma_fib_u64_recurrence(n + 1);
}

} // verus!
