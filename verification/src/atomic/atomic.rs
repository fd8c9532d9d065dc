//! The generic atomic wrapper [`Atomic<T>`].

use vstd::prelude::*;

use super::atomic_integer_value::AtomicIntegerValue;
use super::atomic_number_ops::AtomicNumberOps;
use super::atomic_ops::AtomicOps;
use super::atomic_value::AtomicValue;

verus! {

/// An atomic value of a primitive type with default memory orderings.
///
/// Supported value types are `bool`, `u8`, `i8`, `u16`, `i16`, `u32`, `i32`,
/// `u64`, `i64`, `u128`, `i128`, `usize` and `isize`. Loads use `Acquire`,
/// stores `Release`, read-modify-write operations `AcqRel`; the integer
/// counter arithmetic (`fetch_inc`, `fetch_dec`, `fetch_add`, `fetch_sub`)
/// uses `Relaxed`. Integer arithmetic wraps on overflow and underflow.
///
/// Another thread may change the value between any two calls, so a read is
/// not tied to an earlier write; the contracts state what holds whatever the
/// interleaving.
#[derive(Debug)]
pub struct Atomic<T: AtomicValue> {
    value: T::Primitive,
}

impl<T: AtomicValue> Atomic<T> {
    /// Creates a new atomic value holding `value`.
    pub fn new(value: T) -> Self {
        Atomic { value: T::new_primitive(value) }
    }

    /// Loads the current value.
    pub fn load(&self) -> T {
        self.value.load()
    }

    /// Stores `value`.
    pub fn store(&self, value: T) {
        self.value.store(value)
    }

    /// Stores `value` and returns the value it replaced.
    pub fn swap(&self, value: T) -> T {
        self.value.swap(value)
    }

    /// Stores `new` if the current value equals `current`.
    ///
    /// `Err(actual)` reports the value that prevented the exchange; it never
    /// equals `current`, and `new` was not stored.
    pub fn compare_set(&self, current: T, new: T) -> (r: Result<(), T>)
        ensures
            r matches Err(actual) ==> actual != current,
    {
        self.value.compare_set(current, new)
    }

    /// Weak form of [`compare_set`](Self::compare_set); it may fail spuriously.
    pub fn compare_set_weak(&self, current: T, new: T) -> (r: Result<(), T>) {
        self.value.compare_set_weak(current, new)
    }

    /// Compare-and-exchange returning the value seen before the operation;
    /// the exchange happened exactly when that value equals `current`.
    pub fn compare_and_exchange(&self, current: T, new: T) -> (r: T) {
        self.value.compare_exchange(current, new)
    }

    /// Weak form of [`compare_and_exchange`](Self::compare_and_exchange).
    pub fn compare_and_exchange_weak(&self, current: T, new: T) -> (r: T) {
        self.value.compare_exchange_weak(current, new)
    }

    /// Replaces the value with `f(value)` and returns the value `f` was
    /// applied to. `f` may run more than once under contention.
    pub fn fetch_update<F: Fn(T) -> T>(&self, f: F) -> (r: T)
        requires
            forall|x: T| f.requires((x,)),
        ensures
            exists|n: T| f.ensures((r,), n),
    {
        self.value.fetch_update(f)
    }

    /// Replaces the value with `next` when `f(value)` is `Some(next)`.
    ///
    /// `Some(previous)` reports the replaced value, on which `f` returned
    /// `Some`; `None` means `f` refused the value it saw, which is then left
    /// in place.
    pub fn try_update<F: Fn(T) -> Option<T>>(&self, f: F) -> (r: Option<T>)
        requires
            forall|x: T| f.requires((x,)),
        ensures
            r matches Some(previous) ==> exists|n: T| f.ensures((previous,), Some(n)),
            r is None ==> exists|seen: T| f.ensures((seen,), None::<T>),
    {
        self.value.try_update(f)
    }

    /// The backend that performs this atomic's operations.
    pub closed spec fn backend(&self) -> T::Primitive {
        self.value
    }

    /// The raw backend atomic, for callers that need other memory orderings.
    pub fn inner(&self) -> (r: &T::Inner)
        ensures
            *r == T::raw_atomic(self.backend()),
    {
        T::inner(&self.value)
    }
}

impl<T: AtomicValue> Atomic<T> where T::Primitive: AtomicNumberOps {
    /// Adds `delta` (wrapping) and returns the previous value.
    pub fn fetch_add(&self, delta: T) -> T {
        self.value.fetch_add(delta)
    }

    /// Subtracts `delta` (wrapping) and returns the previous value.
    pub fn fetch_sub(&self, delta: T) -> T {
        self.value.fetch_sub(delta)
    }

    /// Multiplies by `factor` (wrapping) and returns the previous value.
    pub fn fetch_mul(&self, factor: T) -> T {
        self.value.fetch_mul(factor)
    }

    /// Divides by `divisor` and returns the previous value; for a signed
    /// type `MIN / -1` wraps to `MIN`. A zero divisor is not accepted.
    pub fn fetch_div(&self, divisor: T) -> T
        requires
            !<T::Primitive as AtomicNumberOps>::is_zero_value(divisor),
    {
        self.value.fetch_div(divisor)
    }
}

impl<T: AtomicIntegerValue> Atomic<T> {
    /// Adds one (wrapping) and returns the previous value.
    pub fn fetch_inc(&self) -> T {
        T::fetch_inc(&self.value)
    }

    /// Subtracts one (wrapping) and returns the previous value.
    pub fn fetch_dec(&self) -> T {
        T::fetch_dec(&self.value)
    }

    /// Bitwise AND with `value`; returns the previous value.
    pub fn fetch_and(&self, value: T) -> T {
        T::fetch_and(&self.value, value)
    }

    /// Bitwise OR with `value`; returns the previous value.
    pub fn fetch_or(&self, value: T) -> T {
        T::fetch_or(&self.value, value)
    }

    /// Bitwise XOR with `value`; returns the previous value.
    pub fn fetch_xor(&self, value: T) -> T {
        T::fetch_xor(&self.value, value)
    }

    /// Flips every bit; returns the previous value.
    pub fn fetch_not(&self) -> T {
        T::fetch_not(&self.value)
    }

    /// Replaces the value with `f(value, x)` and returns the value `f` was
    /// applied to. `f` may run more than once under contention.
    pub fn fetch_accumulate<F: Fn(T, T) -> T>(&self, x: T, f: F) -> (r: T)
        requires
            forall|a: T, b: T| f.requires((a, b)),
        ensures
            exists|n: T| f.ensures((r, x), n),
    {
        T::fetch_accumulate(&self.value, x, f)
    }

    /// Replaces the value with the larger of it and `value`; returns the
    /// previous value.
    pub fn fetch_max(&self, value: T) -> T {
        T::fetch_max(&self.value, value)
    }

    /// Replaces the value with the smaller of it and `value`; returns the
    /// previous value.
    pub fn fetch_min(&self, value: T) -> T {
        T::fetch_min(&self.value, value)
    }
}

impl Atomic<bool> {
    /// Stores `true` and returns the previous value.
    pub fn fetch_set(&self) -> bool {
        self.value.fetch_set()
    }

    /// Stores `false` and returns the previous value.
    pub fn fetch_clear(&self) -> bool {
        self.value.fetch_clear()
    }

    /// Negates the value and returns the previous value.
    pub fn fetch_not(&self) -> bool {
        self.value.fetch_not()
    }

    /// Logical AND with `value`; returns the previous value.
    pub fn fetch_and(&self, value: bool) -> bool {
        self.value.fetch_and(value)
    }

    /// Logical OR with `value`; returns the previous value.
    pub fn fetch_or(&self, value: bool) -> bool {
        self.value.fetch_or(value)
    }

    /// Logical XOR with `value`; returns the previous value.
    pub fn fetch_xor(&self, value: bool) -> bool {
        self.value.fetch_xor(value)
    }

    /// Stores `new` only when the value is `false`; otherwise returns `Err(true)`.
    pub fn set_if_false(&self, new: bool) -> (r: Result<(), bool>)
        ensures
            r matches Err(actual) ==> actual,
    {
        self.value.set_if_false(new)
    }

    /// Stores `new` only when the value is `true`; otherwise returns `Err(false)`.
    pub fn set_if_true(&self, new: bool) -> (r: Result<(), bool>)
        ensures
            r matches Err(actual) ==> !actual,
    {
        self.value.set_if_true(new)
    }
}

impl<T: AtomicValue + std::fmt::Display> Atomic<T> {
    /// The current value as its `Display` implementation writes it.
    pub fn to_string(&self) -> (s: String)
        ensures
            exists|v: T| vstd::string::to_string_from_display_ensures::<T>(&v, s),
    {
        let v = self.load();
        v.to_string()
    }
}

impl<T: AtomicValue + Default> Default for Atomic<T> {
    /// Creates an atomic holding `T::default()`.
    fn default() -> Self {
        Self::new(T::default())
    }
}

impl<T: AtomicValue> From<T> for Atomic<T> {
    /// Same as [`Atomic::new`].
    fn from(value: T) -> Self {
        Self::new(value)
    }
}

/// The atomic that `from` builds holds its value where no specification can
/// see it, so `from` promises nothing beyond returning a new atomic.
impl<T: AtomicValue> vstd::std_specs::convert::FromSpecImpl<T> for Atomic<T> {
    open spec fn obeys_from_spec() -> bool {
        false
    }

    open spec fn from_spec(v: T) -> Self {
        vstd::pervasive::arbitrary()
    }
}

} // verus!
