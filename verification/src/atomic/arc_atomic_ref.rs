//! [`ArcAtomicRef<T>`], a shared handle to one [`AtomicRef<T>`].

use vstd::prelude::*;
use std::ops::Deref;
use std::sync::Arc;

use super::arc_support::{arc_clone, arc_strong_count};
use super::atomic_ref::AtomicRef;

verus! {

/// A shared-owner wrapper around `Arc<AtomicRef<T>>`.
///
/// Cloning clones the outer `Arc`, so every clone observes and updates the
/// same atomic reference. The wrapper dereferences to it.
#[verifier::reject_recursive_types(T)]
#[derive(Debug)]
pub struct ArcAtomicRef<T> {
    inner: Arc<AtomicRef<T>>,
}

impl<T> ArcAtomicRef<T> {
    /// The shared atomic reference this handle points to.
    pub closed spec fn container(&self) -> Arc<AtomicRef<T>> {
        self.inner
    }

    /// Creates a new shared atomic reference holding `value`.
    pub fn new(value: Arc<T>) -> Self {
        Self::from_atomic_ref(AtomicRef::new(value))
    }

    /// Creates a new shared atomic reference holding a new handle to `value`.
    pub fn from_value(value: T) -> Self {
        Self::from_atomic_ref(AtomicRef::from_value(value))
    }

    /// Moves `atomic_ref` into a new shared container.
    pub fn from_atomic_ref(atomic_ref: AtomicRef<T>) -> (r: Self)
        ensures
            *r.container() == atomic_ref,
    {
        ArcAtomicRef { inner: Arc::new(atomic_ref) }
    }

    /// Wraps an existing shared atomic reference.
    pub fn from_arc(inner: Arc<AtomicRef<T>>) -> (r: Self)
        ensures
            r.container() == inner,
    {
        ArcAtomicRef { inner }
    }

    /// Borrows the underlying `Arc`.
    pub fn as_arc(&self) -> (r: &Arc<AtomicRef<T>>)
        ensures
            *r == self.container(),
    {
        &self.inner
    }

    /// Gives back the underlying `Arc`.
    pub fn into_arc(self) -> (r: Arc<AtomicRef<T>>)
        ensures
            r == self.container(),
    {
        self.inner
    }

    /// The number of strong `Arc` handles to the container at the moment of
    /// the call.
    pub fn strong_count(&self) -> (r: usize)
        ensures
            r >= 1,
    {
        arc_strong_count(&self.inner)
    }
}

impl<T> Clone for ArcAtomicRef<T> {
    /// Another handle to the same atomic reference.
    fn clone(&self) -> (r: Self)
        ensures
            r.container() == self.container(),
    {
        ArcAtomicRef { inner: arc_clone(&self.inner) }
    }
}

impl<T> Deref for ArcAtomicRef<T> {
    type Target = AtomicRef<T>;

    /// The shared atomic reference.
    fn deref(&self) -> (r: &AtomicRef<T>)
        ensures
            *r == *self.container(),
    {
        &*self.inner
    }
}

impl<T> From<AtomicRef<T>> for ArcAtomicRef<T> {
    /// Same as [`ArcAtomicRef::from_atomic_ref`].
    fn from(atomic_ref: AtomicRef<T>) -> (r: Self)
        ensures
            *r.container() == atomic_ref,
    {
        Self::from_atomic_ref(atomic_ref)
    }
}

impl<T> vstd::std_specs::convert::FromSpecImpl<AtomicRef<T>> for ArcAtomicRef<T> {
    open spec fn obeys_from_spec() -> bool {
        false
    }

    open spec fn from_spec(v: AtomicRef<T>) -> Self {
        vstd::pervasive::arbitrary()
    }
}

impl<T> From<Arc<AtomicRef<T>>> for ArcAtomicRef<T> {
    /// Same as [`ArcAtomicRef::from_arc`].
    fn from(inner: Arc<AtomicRef<T>>) -> (r: Self)
        ensures
            r.container() == inner,
    {
        Self::from_arc(inner)
    }
}

impl<T> vstd::std_specs::convert::FromSpecImpl<Arc<AtomicRef<T>>> for ArcAtomicRef<T> {
    open spec fn obeys_from_spec() -> bool {
        true
    }

    closed spec fn from_spec(v: Arc<AtomicRef<T>>) -> Self {
        ArcAtomicRef { inner: v }
    }
}

} // verus!
