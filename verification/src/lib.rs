//! Fibonacci numbers in 64 bits.
//!
//! The crate computes the n-th Fibonacci number in two ways: by the recurrence
//! itself, and by one forward pass that keeps the last two values. Both work in
//! `u64` with wrapping addition, so both return the n-th Fibonacci number
//! reduced modulo 2^64, which is the number itself up to index 93.

pub mod agreement;
pub mod naive;
pub mod optimized;
pub mod sequence;
pub mod wrapped;

pub use naive::calculate_fibonacci;
pub use optimized::calculate_fibonacci_optimized;
