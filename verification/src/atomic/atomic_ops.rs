//! The operations every primitive backend of [`crate::Atomic`] provides.
//!
//! The stored value of a backend may be changed at any moment by another
//! thread, so nothing here claims what a read returns. What the contracts do
//! state is what holds of every outcome: a failed strong compare-and-set
//! always reports a value that differs from the expected one, and the
//! functional updates report a value on which the caller's closure was run.

use vstd::prelude::*;

verus! {

/// Common atomic operations of a primitive backend.
pub trait AtomicOps {
    /// The value type stored in the backend.
    type Value;

    /// Loads the current value (`Acquire`).
    fn load(&self) -> Self::Value;

    /// Stores `value` (`Release`).
    fn store(&self, value: Self::Value);

    /// Stores `value` and returns the previous value (`AcqRel`).
    fn swap(&self, value: Self::Value) -> Self::Value;

    /// Stores `new` if the current value equals `current`.
    ///
    /// `Err(actual)` reports the value that prevented the exchange; it never
    /// equals `current`.
    fn compare_set(&self, current: Self::Value, new: Self::Value) -> (r: Result<(), Self::Value>)
        ensures
            r matches Err(actual) ==> actual != current,
    ;

    /// Weak form of [`compare_set`](Self::compare_set); it may fail spuriously.
    fn compare_set_weak(&self, current: Self::Value, new: Self::Value) -> (r: Result<(), Self::Value>);

    /// Compare-and-exchange returning the value seen before the operation.
    fn compare_exchange(&self, current: Self::Value, new: Self::Value) -> (r: Self::Value);

    /// Weak form of [`compare_exchange`](Self::compare_exchange).
    fn compare_exchange_weak(&self, current: Self::Value, new: Self::Value) -> (r: Self::Value);

    /// Replaces the value with `f(value)` and returns the value `f` was applied to.
    fn fetch_update<F: Fn(Self::Value) -> Self::Value>(&self, f: F) -> (r: Self::Value)
        requires
            forall|x: Self::Value| f.requires((x,)),
        ensures
            exists|n: Self::Value| f.ensures((r,), n),
    ;

    /// Replaces the value with `next` when `f(value)` is `Some(next)`.
    ///
    /// `Some(previous)` reports the replaced value, on which `f` returned
    /// `Some`; `None` means `f` returned `None` for the value it saw.
    fn try_update<F: Fn(Self::Value) -> Option<Self::Value>>(&self, f: F) -> (r: Option<Self::Value>)
        requires
            forall|x: Self::Value| f.requires((x,)),
        ensures
            r matches Some(previous) ==> exists|n: Self::Value| f.ensures((previous,), Some(n)),
            r is None ==> exists|seen: Self::Value| f.ensures((seen,), None::<Self::Value>),
    ;
}

} // verus!
