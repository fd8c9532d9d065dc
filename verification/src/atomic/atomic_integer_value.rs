//! The integer value types of [`crate::Atomic`] and their integer-only operations.

use vstd::prelude::*;

use super::atomic_value::AtomicValue;

verus! {

/// Integer-only operations on a backend; each returns the previous value.
pub trait AtomicIntegerValue: AtomicValue {
    /// Wrapping increment (`Relaxed`).
    fn fetch_inc(primitive: &Self::Primitive) -> Self;

    /// Wrapping decrement (`Relaxed`).
    fn fetch_dec(primitive: &Self::Primitive) -> Self;

    /// Bitwise AND (`AcqRel`).
    fn fetch_and(primitive: &Self::Primitive, value: Self) -> Self;

    /// Bitwise OR (`AcqRel`).
    fn fetch_or(primitive: &Self::Primitive, value: Self) -> Self;

    /// Bitwise XOR (`AcqRel`).
    fn fetch_xor(primitive: &Self::Primitive, value: Self) -> Self;

    /// Flips every bit (`AcqRel`).
    fn fetch_not(primitive: &Self::Primitive) -> Self;

    /// Replaces the value with `f(value, x)` and returns the value `f` was applied to.
    fn fetch_accumulate<F: Fn(Self, Self) -> Self>(primitive: &Self::Primitive, x: Self, f: F) -> (r: Self)
        requires
            forall|a: Self, b: Self| f.requires((a, b)),
        ensures
            exists|n: Self| f.ensures((r, x), n),
    ;

    /// Maximum of the value and `value` (`AcqRel`).
    fn fetch_max(primitive: &Self::Primitive, value: Self) -> Self;

    /// Minimum of the value and `value` (`AcqRel`).
    fn fetch_min(primitive: &Self::Primitive, value: Self) -> Self;
}

} // verus!
