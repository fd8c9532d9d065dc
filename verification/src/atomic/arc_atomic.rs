//! [`ArcAtomic<T>`], a shared handle to one [`Atomic<T>`].

use vstd::prelude::*;
use std::ops::Deref;
use std::sync::Arc;

use super::arc_support::{arc_clone, arc_strong_count};
use super::atomic::Atomic;
use super::atomic_value::AtomicValue;

verus! {

/// A shared-owner wrapper around `Arc<Atomic<T>>`.
///
/// Cloning clones the outer `Arc`, so every clone observes and updates the
/// same atomic container. The wrapper dereferences to the container.
#[derive(Debug)]
pub struct ArcAtomic<T: AtomicValue> {
    inner: Arc<Atomic<T>>,
}

impl<T: AtomicValue> ArcAtomic<T> {
    /// The shared container this handle points to.
    pub closed spec fn container(&self) -> Arc<Atomic<T>> {
        self.inner
    }

    /// Creates a new shared container holding `value`.
    pub fn new(value: T) -> Self {
        Self::from_atomic(Atomic::new(value))
    }

    /// Moves `atomic` into a new shared container.
    pub fn from_atomic(atomic: Atomic<T>) -> (r: Self)
        ensures
            *r.container() == atomic,
    {
        ArcAtomic { inner: Arc::new(atomic) }
    }

    /// Wraps an existing shared container.
    pub fn from_arc(inner: Arc<Atomic<T>>) -> (r: Self)
        ensures
            r.container() == inner,
    {
        ArcAtomic { inner }
    }

    /// Borrows the underlying `Arc`.
    pub fn as_arc(&self) -> (r: &Arc<Atomic<T>>)
        ensures
            *r == self.container(),
    {
        &self.inner
    }

    /// Gives back the underlying `Arc`.
    pub fn into_arc(self) -> (r: Arc<Atomic<T>>)
        ensures
            r == self.container(),
    {
        self.inner
    }

    /// The number of strong `Arc` handles to the container at the moment of
    /// the call.
    pub fn strong_count(&self) -> (r: usize)
        ensures
            r >= 1,
    {
        arc_strong_count(&self.inner)
    }
}

impl<T: AtomicValue> Clone for ArcAtomic<T> {
    /// Another handle to the same container.
    fn clone(&self) -> (r: Self)
        ensures
            r.container() == self.container(),
    {
        ArcAtomic { inner: arc_clone(&self.inner) }
    }
}

impl<T: AtomicValue> Deref for ArcAtomic<T> {
    type Target = Atomic<T>;

    /// The shared container.
    fn deref(&self) -> (r: &Atomic<T>)
        ensures
            *r == *self.container(),
    {
        &*self.inner
    }
}

impl<T: AtomicValue> From<T> for ArcAtomic<T> {
    /// Same as [`ArcAtomic::new`].
    fn from(value: T) -> Self {
        Self::new(value)
    }
}

/// The container that `from` builds holds its value where no specification
/// can see it, so `from` promises nothing beyond returning a new handle.
impl<T: AtomicValue> vstd::std_specs::convert::FromSpecImpl<T> for ArcAtomic<T> {
    open spec fn obeys_from_spec() -> bool {
        false
    }

    open spec fn from_spec(v: T) -> Self {
        vstd::pervasive::arbitrary()
    }
}

impl<T: AtomicValue> From<Atomic<T>> for ArcAtomic<T> {
    /// Same as [`ArcAtomic::from_atomic`].
    fn from(atomic: Atomic<T>) -> (r: Self)
        ensures
            *r.container() == atomic,
    {
        Self::from_atomic(atomic)
    }
}

impl<T: AtomicValue> vstd::std_specs::convert::FromSpecImpl<Atomic<T>> for ArcAtomic<T> {
    open spec fn obeys_from_spec() -> bool {
        false
    }

    open spec fn from_spec(v: Atomic<T>) -> Self {
        vstd::pervasive::arbitrary()
    }
}

impl<T: AtomicValue> From<Arc<Atomic<T>>> for ArcAtomic<T> {
    /// Same as [`ArcAtomic::from_arc`].
    fn from(inner: Arc<Atomic<T>>) -> (r: Self)
        ensures
            r.container() == inner,
    {
        Self::from_arc(inner)
    }
}

impl<T: AtomicValue> vstd::std_specs::convert::FromSpecImpl<Arc<Atomic<T>>> for ArcAtomic<T> {
    open spec fn obeys_from_spec() -> bool {
        true
    }

    closed spec fn from_spec(v: Arc<Atomic<T>>) -> Self {
        ArcAtomic { inner: v }
    }
}

} // verus!
