//! [`ArcAtomicSignedCount`], a shared handle to one [`AtomicSignedCount`].

use vstd::prelude::*;
use std::ops::Deref;
use std::sync::Arc;

use super::arc_support::{arc_clone, arc_strong_count};
use super::atomic_signed_count::AtomicSignedCount;

verus! {

/// A shared-owner wrapper around `Arc<AtomicSignedCount>`, the signed counter.
///
/// Cloning clones the outer `Arc`, so every clone observes and updates the
/// same counter. The wrapper dereferences to the counter.
#[derive(Debug)]
pub struct ArcAtomicSignedCount {
    inner: Arc<AtomicSignedCount>,
}

impl ArcAtomicSignedCount {
    /// The shared counter this handle points to.
    pub closed spec fn container(&self) -> Arc<AtomicSignedCount> {
        self.inner
    }

    /// Creates a new shared counter holding `value`.
    pub fn new(value: isize) -> Self {
        Self::from_count(AtomicSignedCount::new(value))
    }

    /// Creates a new shared counter holding zero.
    pub fn zero() -> Self {
        Self::new(0)
    }

    /// Moves `counter` into a new shared container.
    pub fn from_count(counter: AtomicSignedCount) -> (r: Self)
        ensures
            *r.container() == counter,
    {
        ArcAtomicSignedCount { inner: Arc::new(counter) }
    }

    /// Wraps an existing shared counter.
    pub fn from_arc(inner: Arc<AtomicSignedCount>) -> (r: Self)
        ensures
            r.container() == inner,
    {
        ArcAtomicSignedCount { inner }
    }

    /// Borrows the underlying `Arc`.
    pub fn as_arc(&self) -> (r: &Arc<AtomicSignedCount>)
        ensures
            *r == self.container(),
    {
        &self.inner
    }

    /// Gives back the underlying `Arc`.
    pub fn into_arc(self) -> (r: Arc<AtomicSignedCount>)
        ensures
            r == self.container(),
    {
        self.inner
    }

    /// The number of strong `Arc` handles to the counter at the moment of
    /// the call.
    pub fn strong_count(&self) -> (r: usize)
        ensures
            r >= 1,
    {
        arc_strong_count(&self.inner)
    }
}

impl Clone for ArcAtomicSignedCount {
    /// Another handle to the same counter.
    fn clone(&self) -> (r: Self)
        ensures
            r.container() == self.container(),
    {
        ArcAtomicSignedCount { inner: arc_clone(&self.inner) }
    }
}

impl Default for ArcAtomicSignedCount {
    /// A new shared counter holding zero.
    fn default() -> Self {
        Self::zero()
    }
}

impl Deref for ArcAtomicSignedCount {
    type Target = AtomicSignedCount;

    /// The shared counter.
    fn deref(&self) -> (r: &AtomicSignedCount)
        ensures
            *r == *self.container(),
    {
        &*self.inner
    }
}

impl From<isize> for ArcAtomicSignedCount {
    /// Same as [`ArcAtomicSignedCount::new`].
    fn from(value: isize) -> Self {
        Self::new(value)
    }
}

/// The counter that `from` builds holds its value where no specification can
/// see it, so `from` promises nothing beyond returning a new handle.
impl vstd::std_specs::convert::FromSpecImpl<isize> for ArcAtomicSignedCount {
    open spec fn obeys_from_spec() -> bool {
        false
    }

    open spec fn from_spec(v: isize) -> Self {
        vstd::pervasive::arbitrary()
    }
}

impl From<AtomicSignedCount> for ArcAtomicSignedCount {
    /// Same as [`ArcAtomicSignedCount::from_count`].
    fn from(counter: AtomicSignedCount) -> (r: Self)
        ensures
            *r.container() == counter,
    {
        Self::from_count(counter)
    }
}

impl vstd::std_specs::convert::FromSpecImpl<AtomicSignedCount> for ArcAtomicSignedCount {
    open spec fn obeys_from_spec() -> bool {
        false
    }

    open spec fn from_spec(v: AtomicSignedCount) -> Self {
        vstd::pervasive::arbitrary()
    }
}

impl From<Arc<AtomicSignedCount>> for ArcAtomicSignedCount {
    /// Same as [`ArcAtomicSignedCount::from_arc`].
    fn from(inner: Arc<AtomicSignedCount>) -> (r: Self)
        ensures
            r.container() == inner,
    {
        Self::from_arc(inner)
    }
}

impl vstd::std_specs::convert::FromSpecImpl<Arc<AtomicSignedCount>> for ArcAtomicSignedCount {
    open spec fn obeys_from_spec() -> bool {
        true
    }

    closed spec fn from_spec(v: Arc<AtomicSignedCount>) -> Self {
        ArcAtomicSignedCount { inner: v }
    }
}

} // verus!
