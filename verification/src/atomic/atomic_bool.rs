//! The boolean backend of [`crate::Atomic<bool>`].

use vstd::prelude::*;
use std::sync::atomic::AtomicBool as StdAtomicBool;
use std::sync::atomic::Ordering;

use super::atomic_ops::AtomicOps;

verus! {

/// How `Display` writes a `bool`: `"true"` or `"false"`.
pub fn bool_text(value: bool) -> (s: String)
    ensures
        s@ == (if value { "true"@ } else { "false"@ }),
{
    if value {
        "true".to_owned()
    } else {
        "false".to_owned()
    }
}

/// `std::sync::atomic::AtomicBool::compare_exchange` with `AcqRel` on success
/// and `Acquire` on failure. As the standard library documents it, a success
/// reports the expected value, and the strong form fails only when the stored
/// value differs from the expected one.
#[verifier::external_body]
fn bool_compare_exchange(atomic: &StdAtomicBool, current: bool, new: bool) -> (r: Result<bool, bool>)
    ensures
        r matches Ok(previous) ==> previous == current,
        r matches Err(actual) ==> actual != current,
{
    atomic.compare_exchange(current, new, Ordering::AcqRel, Ordering::Acquire)
}

/// `std::sync::atomic::AtomicBool::fetch_update` with `AcqRel` for the final
/// store and `Acquire` for loads. `Ok(previous)` means the closure returned
/// `Some` for `previous` and that value was replaced; `Err(previous)` means the
/// closure returned `None` for the value it saw last.
#[verifier::external_body]
fn bool_fetch_update<F: Fn(bool) -> Option<bool>>(atomic: &StdAtomicBool, f: F) -> (r: Result<bool, bool>)
    requires
        forall|x: bool| f.requires((x,)),
    ensures
        r matches Ok(previous) ==> exists|next: bool| f.ensures((previous,), Some(next)),
        r matches Err(previous) ==> f.ensures((previous,), None::<bool>),
{
    atomic.fetch_update(Ordering::AcqRel, Ordering::Acquire, f)
}

/// An atomic boolean with default memory orderings: `Acquire` loads,
/// `Release` stores and `AcqRel` read-modify-write operations.
///
/// The stored value may be changed by other threads at any moment; the
/// contracts state what holds whatever the interleaving.
#[derive(Debug)]
pub struct AtomicBool {
    value: StdAtomicBool,
}

impl AtomicBool {
    /// Creates a new atomic boolean holding `value`.
    pub fn new(value: bool) -> Self {
        AtomicBool { value: StdAtomicBool::new(value) }
    }

    /// Loads the current value.
    pub fn load(&self) -> bool {
        self.value.load(Ordering::Acquire)
    }

    /// The current value as `Display` writes a `bool`: `"true"` or `"false"`.
    pub fn to_string(&self) -> (s: String)
        ensures
            s@ == "true"@ || s@ == "false"@,
    {
        bool_text(self.load())
    }

    /// Stores `value`.
    pub fn store(&self, value: bool) {
        self.value.store(value, Ordering::Release)
    }

    /// Stores `value` and returns the previous value.
    pub fn swap(&self, value: bool) -> bool {
        self.value.swap(value, Ordering::AcqRel)
    }

    /// Stores `new` if the current value is `current`; `Err(actual)` reports
    /// the other value.
    pub fn compare_set(&self, current: bool, new: bool) -> (r: Result<(), bool>)
        ensures
            r matches Err(actual) ==> actual == !current,
    {
        match bool_compare_exchange(&self.value, current, new) {
            Ok(_) => Ok(()),
            Err(actual) => Err(actual),
        }
    }

    /// Weak form of [`compare_set`](Self::compare_set); it may fail spuriously.
    pub fn compare_set_weak(&self, current: bool, new: bool) -> (r: Result<(), bool>) {
        match self.value.compare_exchange_weak(current, new, Ordering::AcqRel, Ordering::Acquire) {
            Ok(_) => Ok(()),
            Err(actual) => Err(actual),
        }
    }

    /// Compare-and-exchange returning the value seen before the operation;
    /// the exchange happened exactly when that value equals `current`.
    pub fn compare_and_exchange(&self, current: bool, new: bool) -> (r: bool) {
        match bool_compare_exchange(&self.value, current, new) {
            Ok(previous) => previous,
            Err(actual) => actual,
        }
    }

    /// Weak form of [`compare_and_exchange`](Self::compare_and_exchange).
    pub fn compare_and_exchange_weak(&self, current: bool, new: bool) -> (r: bool) {
        match self.value.compare_exchange_weak(current, new, Ordering::AcqRel, Ordering::Acquire) {
            Ok(previous) => previous,
            Err(actual) => actual,
        }
    }

    /// Stores `true` and returns the previous value.
    pub fn fetch_set(&self) -> bool {
        self.swap(true)
    }

    /// Stores `false` and returns the previous value.
    pub fn fetch_clear(&self) -> bool {
        self.swap(false)
    }

    /// Negates the value and returns the previous value.
    pub fn fetch_not(&self) -> bool {
        self.value.fetch_xor(true, Ordering::AcqRel)
    }

    /// Logical AND with `value`; returns the previous value.
    pub fn fetch_and(&self, value: bool) -> bool {
        self.value.fetch_and(value, Ordering::AcqRel)
    }

    /// Logical OR with `value`; returns the previous value.
    pub fn fetch_or(&self, value: bool) -> bool {
        self.value.fetch_or(value, Ordering::AcqRel)
    }

    /// Logical XOR with `value`; returns the previous value.
    pub fn fetch_xor(&self, value: bool) -> bool {
        self.value.fetch_xor(value, Ordering::AcqRel)
    }

    /// Stores `new` only when the current value is `false`; otherwise the
    /// value is left as it is and `Err(true)` is returned.
    pub fn set_if_false(&self, new: bool) -> (r: Result<(), bool>)
        ensures
            r matches Err(actual) ==> actual,
    {
        self.compare_set(false, new)
    }

    /// Stores `new` only when the current value is `true`; otherwise the
    /// value is left as it is and `Err(false)` is returned.
    pub fn set_if_true(&self, new: bool) -> (r: Result<(), bool>)
        ensures
            r matches Err(actual) ==> !actual,
    {
        self.compare_set(true, new)
    }

    /// Replaces the value with `f(value)` and returns the value `f` was applied to.
    pub fn fetch_update<F: Fn(bool) -> bool>(&self, f: F) -> (r: bool)
        requires
            forall|x: bool| f.requires((x,)),
        ensures
            exists|n: bool| f.ensures((r,), n),
    {
        let fr = &f;
        let lifted = |x: bool| -> (o: Option<bool>)
            ensures
                o matches Some(n) && fr.ensures((x,), n),
            { Some(fr(x)) };
        match bool_fetch_update(&self.value, lifted) {
            Ok(previous) => previous,
            Err(previous) => previous,
        }
    }

    /// Replaces the value with `next` when `f(value)` is `Some(next)`;
    /// `Some(previous)` reports the replaced value, `None` a refusal by `f`.
    pub fn try_update<F: Fn(bool) -> Option<bool>>(&self, f: F) -> (r: Option<bool>)
        requires
            forall|x: bool| f.requires((x,)),
        ensures
            r matches Some(previous) ==> exists|n: bool| f.ensures((previous,), Some(n)),
            r is None ==> exists|seen: bool| f.ensures((seen,), None::<bool>),
    {
        match bool_fetch_update(&self.value, f) {
            Ok(previous) => Some(previous),
            Err(_) => None,
        }
    }

    /// The standard-library atomic that holds the value.
    pub closed spec fn backend(&self) -> StdAtomicBool {
        self.value
    }

    /// The underlying standard-library atomic, for callers that need other
    /// memory orderings.
    pub fn inner(&self) -> (r: &StdAtomicBool)
        ensures
            *r == self.backend(),
    {
        &self.value
    }
}

impl AtomicOps for AtomicBool {
    type Value = bool;

    fn load(&self) -> bool {
        AtomicBool::load(self)
    }

    fn store(&self, value: bool) {
        AtomicBool::store(self, value)
    }

    fn swap(&self, value: bool) -> bool {
        AtomicBool::swap(self, value)
    }

    fn compare_set(&self, current: bool, new: bool) -> (r: Result<(), bool>) {
        AtomicBool::compare_set(self, current, new)
    }

    fn compare_set_weak(&self, current: bool, new: bool) -> (r: Result<(), bool>) {
        AtomicBool::compare_set_weak(self, current, new)
    }

    fn compare_exchange(&self, current: bool, new: bool) -> (r: bool) {
        AtomicBool::compare_and_exchange(self, current, new)
    }

    fn compare_exchange_weak(&self, current: bool, new: bool) -> (r: bool) {
        AtomicBool::compare_and_exchange_weak(self, current, new)
    }

    fn fetch_update<F: Fn(bool) -> bool>(&self, f: F) -> (r: bool) {
        AtomicBool::fetch_update(self, f)
    }

    fn try_update<F: Fn(bool) -> Option<bool>>(&self, f: F) -> (r: Option<bool>) {
        AtomicBool::try_update(self, f)
    }
}

} // verus!
