//! An atomic counter whose value may legitimately become negative.

use vstd::prelude::*;
use std::sync::atomic::AtomicIsize as StdAtomicIsize;
use std::sync::atomic::Ordering;

use super::count_rules::{signed_after_add, signed_after_sub, signed_or_unchanged, signed_add_outcome, signed_sub_outcome, signed_try_add_outcome, signed_try_sub_outcome, signed_is_zero, signed_is_positive, signed_is_negative};
use super::int_backend::isize_fetch_update;

verus! {

/// A signed atomic counter for deltas, balances, backlog and offsets. Its
/// operations return the value after the update, and it never wraps: an
/// update whose result would leave the range of `isize` is refused.
///
/// A refused `inc`, `dec`, `add` or `sub` does not panic and does not signal
/// the refusal: it returns the value it saw, which it left in place. Callers
/// that must tell a refusal from an update use `try_add` or `try_sub`, which
/// return `None` on refusal.
///
/// The value may be changed by other threads at any moment. The contracts
/// therefore tie each result to some value of the counter that the update
/// observed, through the checked transitions of
/// [`count_rules`](super::count_rules).
#[derive(Debug)]
pub struct AtomicSignedCount {
    value: StdAtomicIsize,
}

impl AtomicSignedCount {
    /// Creates a counter holding `value`.
    pub fn new(value: isize) -> Self {
        AtomicSignedCount { value: StdAtomicIsize::new(value) }
    }

    /// Creates a counter holding zero.
    pub fn zero() -> Self {
        Self::new(0)
    }

    /// The current value (`Acquire`).
    pub fn get(&self) -> isize {
        self.value.load(Ordering::Acquire)
    }

    /// The current value written in decimal, as `Display` writes an `isize`.
    pub fn to_string(&self) -> (s: String)
        ensures
            exists|v: isize| vstd::string::to_string_from_display_ensures::<isize>(&v, s),
    {
        let v = self.get();
        v.to_string()
    }

    /// Whether the current value is zero.
    pub fn is_zero(&self) -> bool {
        signed_is_zero(self.get())
    }

    /// Whether the current value is greater than zero.
    pub fn is_positive(&self) -> bool {
        signed_is_positive(self.get())
    }

    /// Whether the current value is less than zero.
    pub fn is_negative(&self) -> bool {
        signed_is_negative(self.get())
    }

    /// Adds one and returns the new value; at `isize::MAX` the increment is
    /// refused and the value is returned unchanged.
    ///
    /// The refusal does not panic; use [`try_add`](Self::try_add) to detect it.
    pub fn inc(&self) -> (r: isize)
        ensures
            exists|seen: isize| r == signed_or_unchanged(seen, signed_after_add(seen, 1)),
    {
        self.add(1)
    }

    /// Subtracts one and returns the new value, which may be negative; at
    /// `isize::MIN` the decrement is refused and the value is returned
    /// unchanged.
    ///
    /// The refusal does not panic; use [`try_sub`](Self::try_sub) to detect it.
    pub fn dec(&self) -> (r: isize)
        ensures
            exists|seen: isize| r == signed_or_unchanged(seen, signed_after_sub(seen, 1)),
    {
        self.sub(1)
    }

    /// Adds `delta` and returns the new value; an addition that would leave
    /// the range of `isize` is refused and the value seen is returned
    /// unchanged.
    ///
    /// The refusal does not panic; use [`try_add`](Self::try_add) to detect it.
    pub fn add(&self, delta: isize) -> (r: isize)
        ensures
            exists|seen: isize| r == signed_or_unchanged(seen, signed_after_add(seen, delta)),
    {
        signed_add_outcome(self.checked_add_from(delta), delta)
    }

    /// Adds `delta` if the sum stays within the range of `isize`.
    ///
    /// `Some(n)` is the new value; `None` means the addition would overflow or
    /// underflow and the counter was left unchanged.
    pub fn try_add(&self, delta: isize) -> (r: Option<isize>)
        ensures
            r matches Some(n) ==> exists|previous: isize| signed_after_add(previous, delta) == Some(n),
            r is None ==> exists|seen: isize| signed_after_add(seen, delta) is None,
    {
        signed_try_add_outcome(self.checked_add_from(delta), delta)
    }

    /// Subtracts `delta` and returns the new value; a subtraction that would
    /// leave the range of `isize` is refused and the value seen is returned
    /// unchanged.
    ///
    /// The refusal does not panic; use [`try_sub`](Self::try_sub) to detect it.
    pub fn sub(&self, delta: isize) -> (r: isize)
        ensures
            exists|seen: isize| r == signed_or_unchanged(seen, signed_after_sub(seen, delta)),
    {
        signed_sub_outcome(self.checked_sub_from(delta), delta)
    }

    /// Subtracts `delta` if the difference stays within the range of `isize`.
    ///
    /// `Some(n)` is the new value; `None` means the subtraction would overflow
    /// or underflow and the counter was left unchanged.
    pub fn try_sub(&self, delta: isize) -> (r: Option<isize>)
        ensures
            r matches Some(n) ==> exists|previous: isize| signed_after_sub(previous, delta) == Some(n),
            r is None ==> exists|seen: isize| signed_after_sub(seen, delta) is None,
    {
        signed_try_sub_outcome(self.checked_sub_from(delta), delta)
    }

    /// Runs the checked addition as one compare-and-set loop. `Ok(previous)`
    /// reports the value the addition replaced, `Err(seen)` a value for which
    /// it would leave the range.
    fn checked_add_from(&self, delta: isize) -> (r: Result<isize, isize>)
        ensures
            r matches Ok(previous) ==> signed_after_add(previous, delta) is Some,
            r matches Err(seen) ==> signed_after_add(seen, delta) is None,
    {
        let step = |current: isize| -> (next: Option<isize>)
            ensures
                next == signed_after_add(current, delta),
            { current.checked_add(delta) };
        isize_fetch_update(&self.value, step)
    }

    /// Runs the checked subtraction as one compare-and-set loop.
    /// `Ok(previous)` reports the value the subtraction replaced, `Err(seen)` a
    /// value for which it would leave the range.
    fn checked_sub_from(&self, delta: isize) -> (r: Result<isize, isize>)
        ensures
            r matches Ok(previous) ==> signed_after_sub(previous, delta) is Some,
            r matches Err(seen) ==> signed_after_sub(seen, delta) is None,
    {
        let step = |current: isize| -> (next: Option<isize>)
            ensures
                next == signed_after_sub(current, delta),
            { current.checked_sub(delta) };
        isize_fetch_update(&self.value, step)
    }
}

impl Default for AtomicSignedCount {
    /// A counter holding zero.
    fn default() -> Self {
        Self::zero()
    }
}

impl From<isize> for AtomicSignedCount {
    /// Same as [`AtomicSignedCount::new`].
    fn from(value: isize) -> Self {
        Self::new(value)
    }
}

/// The counter that `from` builds holds its value where no specification can
/// see it, so `from` promises nothing beyond returning a new counter.
impl vstd::std_specs::convert::FromSpecImpl<isize> for AtomicSignedCount {
    open spec fn obeys_from_spec() -> bool {
        false
    }

    open spec fn from_spec(v: isize) -> Self {
        vstd::pervasive::arbitrary()
    }
}

} // verus!
