//! The value types that [`crate::Atomic`] supports.

use vstd::prelude::*;

use super::atomic_bool::AtomicBool;
use super::atomic_ops::AtomicOps;

verus! {

/// A value type that can be stored in [`crate::Atomic`], with its backend.
pub trait AtomicValue: Copy + Sized {
    /// The backend that performs the atomic operations on this value type.
    type Primitive: AtomicOps<Value = Self> + std::fmt::Debug;

    /// The raw atomic type exposed by [`crate::Atomic::inner`].
    type Inner;

    /// Creates a backend holding `value`.
    fn new_primitive(value: Self) -> Self::Primitive;

    /// The raw atomic that a backend holds: for the integer types the backend
    /// itself, for `bool` the standard-library atomic inside [`AtomicBool`].
    spec fn raw_atomic(primitive: Self::Primitive) -> Self::Inner;

    /// The raw atomic inside a backend.
    fn inner(primitive: &Self::Primitive) -> (r: &Self::Inner)
        ensures
            *r == Self::raw_atomic(*primitive),
    ;
}

impl AtomicValue for bool {
    type Primitive = AtomicBool;

    type Inner = std::sync::atomic::AtomicBool;

    fn new_primitive(value: bool) -> AtomicBool {
        AtomicBool::new(value)
    }

    open spec fn raw_atomic(primitive: AtomicBool) -> std::sync::atomic::AtomicBool {
        primitive.backend()
    }

    fn inner(primitive: &AtomicBool) -> (r: &std::sync::atomic::AtomicBool) {
        primitive.inner()
    }
}

} // verus!
