//! [`ArcAtomicCount`], a shared handle to one [`AtomicCount`].

use vstd::prelude::*;
use std::ops::Deref;
use std::sync::Arc;

use super::arc_support::{arc_clone, arc_strong_count};
use super::atomic_count::AtomicCount;

verus! {

/// A shared-owner wrapper around `Arc<AtomicCount>`, the non-negative counter.
///
/// Cloning clones the outer `Arc`, so every clone observes and updates the
/// same counter. The wrapper dereferences to the counter.
#[derive(Debug)]
pub struct ArcAtomicCount {
    inner: Arc<AtomicCount>,
}

impl ArcAtomicCount {
    /// The shared counter this handle points to.
    pub closed spec fn container(&self) -> Arc<AtomicCount> {
        self.inner
    }

    /// Creates a new shared counter holding `value`.
    pub fn new(value: usize) -> Self {
        Self::from_count(AtomicCount::new(value))
    }

    /// Creates a new shared counter holding zero.
    pub fn zero() -> Self {
        Self::new(0)
    }

    /// Moves `counter` into a new shared container.
    pub fn from_count(counter: AtomicCount) -> (r: Self)
        ensures
            *r.container() == counter,
    {
        ArcAtomicCount { inner: Arc::new(counter) }
    }

    /// Wraps an existing shared counter.
    pub fn from_arc(inner: Arc<AtomicCount>) -> (r: Self)
        ensures
            r.container() == inner,
    {
        ArcAtomicCount { inner }
    }

    /// Borrows the underlying `Arc`.
    pub fn as_arc(&self) -> (r: &Arc<AtomicCount>)
        ensures
            *r == self.container(),
    {
        &self.inner
    }

    /// Gives back the underlying `Arc`.
    pub fn into_arc(self) -> (r: Arc<AtomicCount>)
        ensures
            r == self.container(),
    {
        self.inner
    }

    /// The number of strong `Arc` handles to the counter at the moment of
    /// the call.
    pub fn strong_count(&self) -> (r: usize)
        ensures
            r >= 1,
    {
        arc_strong_count(&self.inner)
    }
}

impl Clone for ArcAtomicCount {
    /// Another handle to the same counter.
    fn clone(&self) -> (r: Self)
        ensures
            r.container() == self.container(),
    {
        ArcAtomicCount { inner: arc_clone(&self.inner) }
    }
}

impl Default for ArcAtomicCount {
    /// A new shared counter holding zero.
    fn default() -> Self {
        Self::zero()
    }
}

impl Deref for ArcAtomicCount {
    type Target = AtomicCount;

    /// The shared counter.
    fn deref(&self) -> (r: &AtomicCount)
        ensures
            *r == *self.container(),
    {
        &*self.inner
    }
}

impl From<usize> for ArcAtomicCount {
    /// Same as [`ArcAtomicCount::new`].
    fn from(value: usize) -> Self {
        Self::new(value)
    }
}

/// The counter that `from` builds holds its value where no specification can
/// see it, so `from` promises nothing beyond returning a new handle.
impl vstd::std_specs::convert::FromSpecImpl<usize> for ArcAtomicCount {
    open spec fn obeys_from_spec() -> bool {
        false
    }

    open spec fn from_spec(v: usize) -> Self {
        vstd::pervasive::arbitrary()
    }
}

impl From<AtomicCount> for ArcAtomicCount {
    /// Same as [`ArcAtomicCount::from_count`].
    fn from(counter: AtomicCount) -> (r: Self)
        ensures
            *r.container() == counter,
    {
        Self::from_count(counter)
    }
}

impl vstd::std_specs::convert::FromSpecImpl<AtomicCount> for ArcAtomicCount {
    open spec fn obeys_from_spec() -> bool {
        false
    }

    open spec fn from_spec(v: AtomicCount) -> Self {
        vstd::pervasive::arbitrary()
    }
}

impl From<Arc<AtomicCount>> for ArcAtomicCount {
    /// Same as [`ArcAtomicCount::from_arc`].
    fn from(inner: Arc<AtomicCount>) -> (r: Self)
        ensures
            r.container() == inner,
    {
        Self::from_arc(inner)
    }
}

impl vstd::std_specs::convert::FromSpecImpl<Arc<AtomicCount>> for ArcAtomicCount {
    open spec fn obeys_from_spec() -> bool {
        true
    }

    closed spec fn from_spec(v: Arc<AtomicCount>) -> Self {
        ArcAtomicCount { inner: v }
    }
}

} // verus!
