//! User-friendly atomic operations with default memory orderings, in the
//! style of Java's `java.util.concurrent.atomic`.
//!
//! - [`Atomic<T>`] for `bool` and the primitive integers,
//! - [`AtomicCount`] and [`AtomicSignedCount`], counters that never wrap,
//! - [`AtomicRef<T>`], an atomic `Arc<T>`,
//! - [`ArcAtomic<T>`], [`ArcAtomicCount`], [`ArcAtomicSignedCount`] and
//!   [`ArcAtomicRef<T>`], shared-owner handles to those containers.

pub mod atomic;

pub use atomic::{
    ArcAtomic, ArcAtomicCount, ArcAtomicRef, ArcAtomicSignedCount, Atomic, AtomicCount, AtomicRef,
    AtomicSignedCount,
};
