use fibonacci::wrapped::LAST_EXACT_INDEX;
use fibonacci::{calculate_fibonacci, calculate_fibonacci_optimized};

/// The n-th Fibonacci number modulo 2^64, over 128-bit integers.
fn reduced(n: u32) -> u64 {
    let modulus: u128 = 1 << 64;
    let mut pair: (u128, u128) = (0, 1);
    for _ in 0..n {
        pair = (pair.1, (pair.0 + pair.1) % modulus);
    }
    pair.0 as u64
}

#[test]
fn last_exact_index_is_93() {
    assert_eq!(LAST_EXACT_INDEX, 93);
    let a: u64 = calculate_fibonacci_optimized(LAST_EXACT_INDEX - 1);
    let b: u64 = calculate_fibonacci_optimized(LAST_EXACT_INDEX);
    assert!(calculate_fibonacci_optimized(LAST_EXACT_INDEX - 2).checked_add(a) == Some(b));
    assert!(a.checked_add(b).is_none());
}

#[test]
fn both_agree_on_small_indices() {
    for n in 0..=30u32 {
        assert_eq!(calculate_fibonacci(n), calculate_fibonacci_optimized(n), "index {}", n);
    }
}

#[test]
fn naive_matches_reduced_value() {
    for n in 0..=30u32 {
        assert_eq!(calculate_fibonacci(n), reduced(n), "index {}", n);
    }
}

#[test]
fn optimized_matches_reduced_value() {
    for n in 0..=500u32 {
        assert_eq!(calculate_fibonacci_optimized(n), reduced(n), "index {}", n);
    }
    assert_eq!(calculate_fibonacci_optimized(100_000), reduced(100_000));
}

#[test]
fn naive_recurrence() {
    for n in 2..=28u32 {
        assert_eq!(
            calculate_fibonacci(n),
            calculate_fibonacci(n - 1) + calculate_fibonacci(n - 2),
            "index {}",
            n
        );
    }
}

#[test]
fn optimized_recurrence_up_to_93() {
    for n in 2..=93u32 {
        let sum: Option<u64> = calculate_fibonacci_optimized(n - 1)
            .checked_add(calculate_fibonacci_optimized(n - 2));
        assert_eq!(Some(calculate_fibonacci_optimized(n)), sum, "index {}", n);
    }
}

#[test]
fn optimized_recurrence_wraps_beyond_93() {
    for n in 94..=300u32 {
        assert_eq!(
            calculate_fibonacci_optimized(n),
            calculate_fibonacci_optimized(n - 1)
                .wrapping_add(calculate_fibonacci_optimized(n - 2)),
            "index {}",
            n
        );
    }
}

#[test]
fn naive_never_decreases_on_small_indices() {
    for n in 1..30u32 {
        assert!(calculate_fibonacci(n + 1) >= calculate_fibonacci(n), "index {}", n);
    }
}

#[test]
fn optimized_never_decreases_up_to_93() {
    for n in 0..93u32 {
        assert!(
            calculate_fibonacci_optimized(n + 1) >= calculate_fibonacci_optimized(n),
            "index {}",
            n
        );
    }
}

#[test]
fn optimized_decreases_where_it_wraps() {
    assert!(calculate_fibonacci_optimized(94) < calculate_fibonacci_optimized(93));
}

#[test]
fn optimized_step_is_monotone_exactly_without_wrap() {
    for n in 1..300u32 {
        let before: u64 = calculate_fibonacci_optimized(n - 1);
        let here: u64 = calculate_fibonacci_optimized(n);
        let after: u64 = calculate_fibonacci_optimized(n + 1);
        assert_eq!(after >= here, before.checked_add(here).is_some(), "index {}", n);
    }
}
