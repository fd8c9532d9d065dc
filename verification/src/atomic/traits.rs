//! Traits that give atomic types a uniform interface.

use vstd::prelude::*;

verus! {

/// Whether `f` may be called on every value of type `V`.
pub open spec fn callable_on_every_value<V, F: Fn(V) -> V>(f: F) -> bool {
    forall|x: V| f.requires((x,))
}

/// Common operations of an atomic container.
pub trait Atomic {
    /// The value type stored in the container.
    type Value;

    /// Loads the current value.
    fn load(&self) -> Self::Value;

    /// Stores `value`.
    fn store(&self, value: Self::Value);

    /// Stores `value` and returns the previous value.
    fn swap(&self, value: Self::Value) -> Self::Value;

    /// Stores `new` if the current value matches `current`.
    fn compare_set(&self, current: Self::Value, new: Self::Value) -> (r: Result<(), Self::Value>);

    /// Weak form of `compare_set`; it may fail spuriously.
    fn compare_set_weak(&self, current: Self::Value, new: Self::Value) -> (r: Result<(), Self::Value>);

    /// Compare-and-exchange returning the value seen before the operation.
    fn compare_exchange(&self, current: Self::Value, new: Self::Value) -> Self::Value;

    /// Weak form of `compare_exchange`.
    fn compare_exchange_weak(&self, current: Self::Value, new: Self::Value) -> Self::Value;

    /// Replaces the value with `f(value)` and returns the value `f` was applied to.
    fn fetch_update<F: Fn(Self::Value) -> Self::Value>(&self, f: F) -> Self::Value
        requires
            callable_on_every_value::<Self::Value, F>(f),
    ;
}

/// Arithmetic operations of a numeric atomic container; each returns the
/// previous value.
pub trait AtomicNumber: Atomic {
    /// Adds `delta`.
    fn fetch_add(&self, delta: Self::Value) -> Self::Value;

    /// Subtracts `delta`.
    fn fetch_sub(&self, delta: Self::Value) -> Self::Value;

    /// Multiplies by `factor`.
    fn fetch_mul(&self, factor: Self::Value) -> Self::Value;

    /// Divides by `divisor`.
    fn fetch_div(&self, divisor: Self::Value) -> Self::Value;
}

} // verus!
