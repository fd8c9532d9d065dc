//! Arithmetic operations of the integer backends of [`crate::Atomic`].

use vstd::prelude::*;

use super::atomic_ops::AtomicOps;

verus! {

/// Arithmetic read-modify-write operations; each returns the previous value.
///
/// Addition, subtraction and multiplication wrap on overflow, and division
/// wraps `MIN / -1` of a signed type to `MIN`.
pub trait AtomicNumberOps: AtomicOps {
    /// Whether `value` is the zero of the value type.
    spec fn is_zero_value(value: Self::Value) -> bool;

    /// Wrapping addition (`Relaxed`).
    fn fetch_add(&self, delta: Self::Value) -> Self::Value;

    /// Wrapping subtraction (`Relaxed`).
    fn fetch_sub(&self, delta: Self::Value) -> Self::Value;

    /// Wrapping multiplication, by a compare-and-set loop.
    fn fetch_mul(&self, factor: Self::Value) -> Self::Value;

    /// Wrapping division, by a compare-and-set loop; a zero divisor is refused.
    fn fetch_div(&self, divisor: Self::Value) -> Self::Value
        requires
            !Self::is_zero_value(divisor),
    ;
}

} // verus!
