//! A non-negative atomic counter whose transitions serve as synchronization
//! signals.

use vstd::prelude::*;
use std::sync::atomic::AtomicUsize as StdAtomicUsize;
use std::sync::atomic::Ordering;

use super::count_rules::{count_after_add, count_after_sub, count_or_unchanged, count_add_outcome, count_sub_outcome, count_try_add_outcome, count_try_sub_outcome, count_is_zero, count_is_positive};
use super::int_backend::usize_fetch_update;

verus! {

/// A non-negative atomic counter: active tasks, in-flight requests, resource
/// usage, termination checks. Its operations return the value after the
/// update, and it never wraps: an update that would pass `usize::MAX` or go
/// below zero is refused.
///
/// A refused `inc`, `add`, `dec` or `sub` does not panic and does not signal
/// the refusal: it returns the value it saw, which it left in place. Callers
/// that must tell a refusal from an update use `try_add`, `try_dec` or
/// `try_sub`, which return `None` on refusal.
///
/// The value may be changed by other threads at any moment. The contracts
/// therefore tie each result to some value of the counter that the update
/// observed, through the checked transitions of
/// [`count_rules`](super::count_rules).
#[derive(Debug)]
pub struct AtomicCount {
    value: StdAtomicUsize,
}

impl AtomicCount {
    /// Creates a counter holding `value`.
    pub fn new(value: usize) -> Self {
        AtomicCount { value: StdAtomicUsize::new(value) }
    }

    /// Creates a counter holding zero.
    pub fn zero() -> Self {
        Self::new(0)
    }

    /// The current value (`Acquire`).
    pub fn get(&self) -> usize {
        self.value.load(Ordering::Acquire)
    }

    /// The current value written in decimal, as `Display` writes a `usize`.
    pub fn to_string(&self) -> (s: String)
        ensures
            exists|v: usize| vstd::string::to_string_from_display_ensures::<usize>(&v, s),
    {
        let v = self.get();
        v.to_string()
    }

    /// Whether the current value is zero.
    pub fn is_zero(&self) -> bool {
        count_is_zero(self.get())
    }

    /// Whether the current value is greater than zero.
    pub fn is_positive(&self) -> bool {
        count_is_positive(self.get())
    }

    /// Adds one and returns the new value; at `usize::MAX` the increment is
    /// refused and the value is returned unchanged.
    ///
    /// The refusal does not panic; use [`try_add`](Self::try_add) to detect it.
    pub fn inc(&self) -> (r: usize)
        ensures
            exists|seen: usize| r == count_or_unchanged(seen, count_after_add(seen, 1)),
    {
        self.add(1)
    }

    /// Adds `delta` and returns the new value; an addition that would pass
    /// `usize::MAX` is refused and the value seen is returned unchanged.
    ///
    /// The refusal does not panic; use [`try_add`](Self::try_add) to detect it.
    pub fn add(&self, delta: usize) -> (r: usize)
        ensures
            exists|seen: usize| r == count_or_unchanged(seen, count_after_add(seen, delta)),
    {
        count_add_outcome(self.checked_add_from(delta), delta)
    }

    /// Adds `delta` if the sum stays within `usize::MAX`.
    ///
    /// `Some(n)` is the new value, the checked sum of `delta` and the value the
    /// addition replaced; `None` means the addition would overflow and the
    /// counter was left unchanged.
    pub fn try_add(&self, delta: usize) -> (r: Option<usize>)
        ensures
            r matches Some(n) ==> exists|previous: usize| count_after_add(previous, delta) == Some(n),
            r is None ==> exists|seen: usize| count_after_add(seen, delta) is None,
    {
        count_try_add_outcome(self.checked_add_from(delta), delta)
    }

    /// Subtracts one and returns the new value; at zero the decrement is
    /// refused and zero is returned.
    ///
    /// The refusal does not panic; use [`try_dec`](Self::try_dec) to detect it.
    pub fn dec(&self) -> (r: usize)
        ensures
            exists|seen: usize| r == count_or_unchanged(seen, count_after_sub(seen, 1)),
    {
        self.sub(1)
    }

    /// Subtracts one if the counter is positive; `None` means it was zero.
    pub fn try_dec(&self) -> (r: Option<usize>)
        ensures
            r matches Some(n) ==> exists|previous: usize| count_after_sub(previous, 1) == Some(n),
            r is None ==> exists|seen: usize| count_after_sub(seen, 1) is None,
    {
        self.try_sub(1)
    }

    /// Subtracts `delta` and returns the new value; a subtraction that would
    /// go below zero is refused and the value seen is returned unchanged.
    ///
    /// The refusal does not panic; use [`try_sub`](Self::try_sub) to detect it.
    pub fn sub(&self, delta: usize) -> (r: usize)
        ensures
            exists|seen: usize| r == count_or_unchanged(seen, count_after_sub(seen, delta)),
    {
        count_sub_outcome(self.checked_sub_from(delta), delta)
    }

    /// Subtracts `delta` if the difference stays non-negative.
    ///
    /// `Some(n)` is the new value; `None` means the subtraction would go below
    /// zero and the counter was left unchanged.
    pub fn try_sub(&self, delta: usize) -> (r: Option<usize>)
        ensures
            r matches Some(n) ==> exists|previous: usize| count_after_sub(previous, delta) == Some(n),
            r is None ==> exists|seen: usize| count_after_sub(seen, delta) is None,
    {
        count_try_sub_outcome(self.checked_sub_from(delta), delta)
    }

    /// Runs the checked addition as one compare-and-set loop. `Ok(previous)`
    /// reports the value the addition replaced, `Err(seen)` a value for which
    /// it would overflow.
    fn checked_add_from(&self, delta: usize) -> (r: Result<usize, usize>)
        ensures
            r matches Ok(previous) ==> count_after_add(previous, delta) is Some,
            r matches Err(seen) ==> count_after_add(seen, delta) is None,
    {
        let step = |current: usize| -> (next: Option<usize>)
            ensures
                next == count_after_add(current, delta),
            { current.checked_add(delta) };
        usize_fetch_update(&self.value, step)
    }

    /// Runs the checked subtraction as one compare-and-set loop. `Ok(previous)`
    /// reports the value the subtraction replaced, `Err(seen)` a value for
    /// which it would go below zero.
    fn checked_sub_from(&self, delta: usize) -> (r: Result<usize, usize>)
        ensures
            r matches Ok(previous) ==> count_after_sub(previous, delta) is Some,
            r matches Err(seen) ==> count_after_sub(seen, delta) is None,
    {
        let step = |current: usize| -> (next: Option<usize>)
            ensures
                next == count_after_sub(current, delta),
            { current.checked_sub(delta) };
        usize_fetch_update(&self.value, step)
    }
}

impl Default for AtomicCount {
    /// A counter holding zero.
    fn default() -> Self {
        Self::zero()
    }
}

impl From<usize> for AtomicCount {
    /// Same as [`AtomicCount::new`].
    fn from(value: usize) -> Self {
        Self::new(value)
    }
}

/// The counter that `from` builds holds its value where no specification can
/// see it, so `from` promises nothing beyond returning a new counter.
impl vstd::std_specs::convert::FromSpecImpl<usize> for AtomicCount {
    open spec fn obeys_from_spec() -> bool {
        false
    }

    open spec fn from_spec(v: usize) -> Self {
        vstd::pervasive::arbitrary()
    }
}

} // verus!
