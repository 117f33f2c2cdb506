//! The Fibonacci sequence over the natural numbers.

use vstd::prelude::*;

verus! {

/// The n-th Fibonacci number: 0, 1, 1, 2, 3, 5, 8, ...
pub open spec fn fib(n: nat) -> nat
    decreases n,
{
    if n < 2 {
        n
    } else {
        fib((n - 1) as nat) + fib((n - 2) as nat)
    }
}

/// The sequence starts 0, 1, 1, 2.
pub proof fn lemma_fib_start()
    ensures
        fib(0) == 0,
        fib(1) == 1,
        fib(2) == 1,
        fib(3) == 2,
{
    reveal_with_fuel(fib, 3);
}

/// The sequence never decreases.
pub proof fn lemma_fib_monotonic(i: nat, j: nat)
    requires
        i <= j,
    ensures
        fib(i) <= fib(j),
    decreases j,
{
    if i < j {
        lemma_fib_monotonic(i, (j - 1) as nat);
    }
}

/// The addition law: `fib(m + n) = fib(m) * fib(n + 1) + fib(m - 1) * fib(n)`.
pub proof fn lemma_fib_add(m: nat, n: nat)
    requires
        m >= 1,
    ensures
        fib(m + n) == fib(m) * fib(n + 1) + fib((m - 1) as nat) * fib(n),
    decreases n,
{
    let a: nat = fib(m);
    let b: nat = fib((m - 1) as nat);
    if n == 0 {
        assert(a * 1 + b * 0 == a) by (nonlinear_arith);
    } else if n == 1 {
        lemma_fib_start();
        assert(a * 1 + b * 1 == a + b) by (nonlinear_arith);
    } else {
        let x: nat = fib(n);
        let y: nat = fib((n - 1) as nat);
        let z: nat = fib((n - 2) as nat);
        lemma_fib_add(m, (n - 1) as nat);
        lemma_fib_add(m, (n - 2) as nat);
        assert(a * (x + y) + b * (y + z) == (a * x + b * y) + (a * y + b * z))
            by (nonlinear_arith);
    }
}

/// The doubling formulas: from `a = fib(k)` and `b = fib(k + 1)` to the entries
/// at `2k` and `2k + 1`.
pub proof fn lemma_fib_double(k: nat, a: nat, b: nat)
    requires
        fib(k) == a,
        fib(k + 1) == b,
    ensures
        fib(2 * k) == a * (2 * b - a),
        fib(2 * k + 1) == a * a + b * b,
{
    if k == 0 {
        assert(a * (2 * b - a) == 0 && a * a + b * b == 1) by (nonlinear_arith)
            requires
                a == 0,
                b == 1,
        ;
    } else {
        let c: nat = fib((k - 1) as nat);
        lemma_fib_add(k, k);
        assert(a * b + c * a == a * (2 * b - a)) by (nonlinear_arith)
            requires
                b == a + c,
        ;
        lemma_fib_add(k + 1, k);
    }
}

/// The last Fibonacci number below 2^64 and the first one above it.
pub proof fn lemma_fib_landmarks()
    ensures
        fib(92) == 7540113804746346429,
        fib(93) == 12200160415121876738,
        fib(94) == 19740274219868223167,
{
    // Doubling along 2, 5, 11, 23, 46; each pair is fib(k), fib(k + 1).
    lemma_fib_start();
    lemma_fib_double(2, 1, 2);
    lemma_fib_double(5, 5, 8);
    lemma_fib_double(11, 89, 144);
    lemma_fib_double(23, 28657, 46368);
    lemma_fib_double(46, 1836311903, 2971215073);
}

} // verus!
