//! Backends for the 128-bit integer values, stored in `portable_atomic`'s
//! atomics because the standard library has no stable 128-bit atomics.

use vstd::prelude::*;
use portable_atomic::Ordering;
use portable_atomic::{AtomicU128, AtomicI128};

use super::atomic_integer_value::AtomicIntegerValue;
use super::atomic_number_ops::AtomicNumberOps;
use super::atomic_ops::AtomicOps;
use super::atomic_value::AtomicValue;

verus! {

/// `portable_atomic::AtomicU128`, whose contents Verus does not see.
#[verifier::external_type_specification]
#[verifier::external_body]
pub struct ExAtomicU128(portable_atomic::AtomicU128);

/// `portable_atomic::AtomicI128`, whose contents Verus does not see.
#[verifier::external_type_specification]
#[verifier::external_body]
pub struct ExAtomicI128(portable_atomic::AtomicI128);

/// `portable_atomic::AtomicU128::new`.
#[verifier::external_body]
pub(crate) fn u128_new(value: u128) -> AtomicU128 {
    AtomicU128::new(value)
}

/// `portable_atomic::AtomicU128::load` with `Acquire` ordering; the value depends on other threads.
#[verifier::external_body]
pub(crate) fn u128_load(atomic: &AtomicU128) -> u128 {
    atomic.load(Ordering::Acquire)
}

/// `portable_atomic::AtomicU128::store` with `Release` ordering.
#[verifier::external_body]
pub(crate) fn u128_store(atomic: &AtomicU128, value: u128) {
    atomic.store(value, Ordering::Release)
}

/// `portable_atomic::AtomicU128::swap` with `AcqRel` ordering; returns the replaced value.
#[verifier::external_body]
pub(crate) fn u128_swap(atomic: &AtomicU128, value: u128) -> u128 {
    atomic.swap(value, Ordering::AcqRel)
}

/// `portable_atomic::AtomicU128::compare_exchange` with `AcqRel` on success and `Acquire` on
/// failure. A success reports the expected value; the strong form fails only
/// when the stored value differs from the expected one.
#[verifier::external_body]
pub(crate) fn u128_compare_exchange(atomic: &AtomicU128, current: u128, new: u128) -> (r: Result<u128, u128>)
    ensures
        r matches Ok(previous) ==> previous == current,
        r matches Err(actual) ==> actual != current,
{
    atomic.compare_exchange(current, new, Ordering::AcqRel, Ordering::Acquire)
}

/// `portable_atomic::AtomicU128::compare_exchange_weak` with `AcqRel` on success and `Acquire` on
/// failure. It may fail spuriously, so nothing is claimed of a failure.
#[verifier::external_body]
pub(crate) fn u128_compare_exchange_weak(atomic: &AtomicU128, current: u128, new: u128) -> (r: Result<u128, u128>)
    ensures
        r matches Ok(previous) ==> previous == current,
{
    atomic.compare_exchange_weak(current, new, Ordering::AcqRel, Ordering::Acquire)
}

/// `portable_atomic::AtomicU128::fetch_add` (wrapping) with `Relaxed` ordering; returns the previous value.
#[verifier::external_body]
pub(crate) fn u128_fetch_add(atomic: &AtomicU128, value: u128) -> u128 {
    atomic.fetch_add(value, Ordering::Relaxed)
}

/// `portable_atomic::AtomicU128::fetch_sub` (wrapping) with `Relaxed` ordering; returns the previous value.
#[verifier::external_body]
pub(crate) fn u128_fetch_sub(atomic: &AtomicU128, value: u128) -> u128 {
    atomic.fetch_sub(value, Ordering::Relaxed)
}

/// `portable_atomic::AtomicU128::fetch_and` with `AcqRel` ordering; returns the previous value.
#[verifier::external_body]
pub(crate) fn u128_fetch_and(atomic: &AtomicU128, value: u128) -> u128 {
    atomic.fetch_and(value, Ordering::AcqRel)
}

/// `portable_atomic::AtomicU128::fetch_or` with `AcqRel` ordering; returns the previous value.
#[verifier::external_body]
pub(crate) fn u128_fetch_or(atomic: &AtomicU128, value: u128) -> u128 {
    atomic.fetch_or(value, Ordering::AcqRel)
}

/// `portable_atomic::AtomicU128::fetch_xor` with `AcqRel` ordering; returns the previous value.
#[verifier::external_body]
pub(crate) fn u128_fetch_xor(atomic: &AtomicU128, value: u128) -> u128 {
    atomic.fetch_xor(value, Ordering::AcqRel)
}

/// `portable_atomic::AtomicU128::fetch_max` with `AcqRel` ordering; returns the previous value.
#[verifier::external_body]
pub(crate) fn u128_fetch_max(atomic: &AtomicU128, value: u128) -> u128 {
    atomic.fetch_max(value, Ordering::AcqRel)
}

/// `portable_atomic::AtomicU128::fetch_min` with `AcqRel` ordering; returns the previous value.
#[verifier::external_body]
pub(crate) fn u128_fetch_min(atomic: &AtomicU128, value: u128) -> u128 {
    atomic.fetch_min(value, Ordering::AcqRel)
}

/// `portable_atomic::AtomicU128::fetch_update` with `AcqRel` for the final store and `Acquire` for
/// loads. `Ok(previous)` means the closure returned `Some` for `previous` and
/// that value was replaced; `Err(previous)` means the closure returned `None`
/// for the value it saw last.
#[verifier::external_body]
pub(crate) fn u128_fetch_update<F: Fn(u128) -> Option<u128>>(atomic: &AtomicU128, f: F) -> (r: Result<u128, u128>)
    requires
        forall|x: u128| f.requires((x,)),
    ensures
        r matches Ok(previous) ==> exists|next: u128| f.ensures((previous,), Some(next)),
        r matches Err(previous) ==> f.ensures((previous,), None::<u128>),
{
    atomic.fetch_update(Ordering::AcqRel, Ordering::Acquire, f)
}

impl AtomicOps for AtomicU128 {
    type Value = u128;

    fn load(&self) -> u128 {
        u128_load(self)
    }

    fn store(&self, value: u128) {
        u128_store(self, value)
    }

    fn swap(&self, value: u128) -> u128 {
        u128_swap(self, value)
    }

    fn compare_set(&self, current: u128, new: u128) -> (r: Result<(), u128>) {
        match u128_compare_exchange(self, current, new) {
            Ok(_) => Ok(()),
            Err(actual) => Err(actual),
        }
    }

    fn compare_set_weak(&self, current: u128, new: u128) -> (r: Result<(), u128>) {
        match u128_compare_exchange_weak(self, current, new) {
            Ok(_) => Ok(()),
            Err(actual) => Err(actual),
        }
    }

    fn compare_exchange(&self, current: u128, new: u128) -> (r: u128) {
        match u128_compare_exchange(self, current, new) {
            Ok(previous) => previous,
            Err(actual) => actual,
        }
    }

    fn compare_exchange_weak(&self, current: u128, new: u128) -> (r: u128) {
        match u128_compare_exchange_weak(self, current, new) {
            Ok(previous) => previous,
            Err(actual) => actual,
        }
    }

    fn fetch_update<F: Fn(u128) -> u128>(&self, f: F) -> (r: u128) {
        let fr = &f;
        let lifted = |x: u128| -> (o: Option<u128>)
            ensures
                o matches Some(n) && fr.ensures((x,), n),
            { Some(fr(x)) };
        match u128_fetch_update(self, lifted) {
            Ok(previous) => previous,
            Err(previous) => previous,
        }
    }

    fn try_update<F: Fn(u128) -> Option<u128>>(&self, f: F) -> (r: Option<u128>) {
        match u128_fetch_update(self, f) {
            Ok(previous) => Some(previous),
            Err(_) => None,
        }
    }
}

impl AtomicNumberOps for AtomicU128 {
    open spec fn is_zero_value(value: u128) -> bool {
        value == 0
    }

    fn fetch_add(&self, delta: u128) -> u128 {
        u128_fetch_add(self, delta)
    }

    fn fetch_sub(&self, delta: u128) -> u128 {
        u128_fetch_sub(self, delta)
    }

    fn fetch_mul(&self, factor: u128) -> u128 {
        let step = |c: u128| -> (n: u128)
            ensures
                n == c.wrapping_mul(factor),
            { c.wrapping_mul(factor) };
        AtomicOps::fetch_update(self, step)
    }

    fn fetch_div(&self, divisor: u128) -> u128 {
        let step = |c: u128| -> (n: u128)
            ensures
                n == c / divisor,
            { c / divisor };
        AtomicOps::fetch_update(self, step)
    }
}

impl AtomicValue for u128 {
    type Primitive = AtomicU128;

    type Inner = AtomicU128;

    fn new_primitive(value: u128) -> AtomicU128 {
        u128_new(value)
    }

    open spec fn raw_atomic(primitive: AtomicU128) -> AtomicU128 {
        primitive
    }

    fn inner(primitive: &AtomicU128) -> (r: &AtomicU128) {
        primitive
    }
}

impl AtomicIntegerValue for u128 {
    fn fetch_inc(primitive: &AtomicU128) -> u128 {
        u128_fetch_add(primitive, 1)
    }

    fn fetch_dec(primitive: &AtomicU128) -> u128 {
        u128_fetch_sub(primitive, 1)
    }

    fn fetch_and(primitive: &AtomicU128, value: u128) -> u128 {
        u128_fetch_and(primitive, value)
    }

    fn fetch_or(primitive: &AtomicU128, value: u128) -> u128 {
        u128_fetch_or(primitive, value)
    }

    fn fetch_xor(primitive: &AtomicU128, value: u128) -> u128 {
        u128_fetch_xor(primitive, value)
    }

    fn fetch_not(primitive: &AtomicU128) -> u128 {
        u128_fetch_xor(primitive, !0)
    }

    fn fetch_accumulate<F: Fn(u128, u128) -> u128>(primitive: &AtomicU128, x: u128, f: F) -> (r: u128) {
        let fr = &f;
        let step = |c: u128| -> (n: u128)
            ensures
                fr.ensures((c, x), n),
            { fr(c, x) };
        AtomicOps::fetch_update(primitive, step)
    }

    fn fetch_max(primitive: &AtomicU128, value: u128) -> u128 {
        u128_fetch_max(primitive, value)
    }

    fn fetch_min(primitive: &AtomicU128, value: u128) -> u128 {
        u128_fetch_min(primitive, value)
    }
}

/// `portable_atomic::AtomicI128::new`.
#[verifier::external_body]
pub(crate) fn i128_new(value: i128) -> AtomicI128 {
    AtomicI128::new(value)
}

/// `portable_atomic::AtomicI128::load` with `Acquire` ordering; the value depends on other threads.
#[verifier::external_body]
pub(crate) fn i128_load(atomic: &AtomicI128) -> i128 {
    atomic.load(Ordering::Acquire)
}

/// `portable_atomic::AtomicI128::store` with `Release` ordering.
#[verifier::external_body]
pub(crate) fn i128_store(atomic: &AtomicI128, value: i128) {
    atomic.store(value, Ordering::Release)
}

/// `portable_atomic::AtomicI128::swap` with `AcqRel` ordering; returns the replaced value.
#[verifier::external_body]
pub(crate) fn i128_swap(atomic: &AtomicI128, value: i128) -> i128 {
    atomic.swap(value, Ordering::AcqRel)
}

/// `portable_atomic::AtomicI128::compare_exchange` with `AcqRel` on success and `Acquire` on
/// failure. A success reports the expected value; the strong form fails only
/// when the stored value differs from the expected one.
#[verifier::external_body]
pub(crate) fn i128_compare_exchange(atomic: &AtomicI128, current: i128, new: i128) -> (r: Result<i128, i128>)
    ensures
        r matches Ok(previous) ==> previous == current,
        r matches Err(actual) ==> actual != current,
{
    atomic.compare_exchange(current, new, Ordering::AcqRel, Ordering::Acquire)
}

/// `portable_atomic::AtomicI128::compare_exchange_weak` with `AcqRel` on success and `Acquire` on
/// failure. It may fail spuriously, so nothing is claimed of a failure.
#[verifier::external_body]
pub(crate) fn i128_compare_exchange_weak(atomic: &AtomicI128, current: i128, new: i128) -> (r: Result<i128, i128>)
    ensures
        r matches Ok(previous) ==> previous == current,
{
    atomic.compare_exchange_weak(current, new, Ordering::AcqRel, Ordering::Acquire)
}

/// `portable_atomic::AtomicI128::fetch_add` (wrapping) with `Relaxed` ordering; returns the previous value.
#[verifier::external_body]
pub(crate) fn i128_fetch_add(atomic: &AtomicI128, value: i128) -> i128 {
    atomic.fetch_add(value, Ordering::Relaxed)
}

/// `portable_atomic::AtomicI128::fetch_sub` (wrapping) with `Relaxed` ordering; returns the previous value.
#[verifier::external_body]
pub(crate) fn i128_fetch_sub(atomic: &AtomicI128, value: i128) -> i128 {
    atomic.fetch_sub(value, Ordering::Relaxed)
}

/// `portable_atomic::AtomicI128::fetch_and` with `AcqRel` ordering; returns the previous value.
#[verifier::external_body]
pub(crate) fn i128_fetch_and(atomic: &AtomicI128, value: i128) -> i128 {
    atomic.fetch_and(value, Ordering::AcqRel)
}

/// `portable_atomic::AtomicI128::fetch_or` with `AcqRel` ordering; returns the previous value.
#[verifier::external_body]
pub(crate) fn i128_fetch_or(atomic: &AtomicI128, value: i128) -> i128 {
    atomic.fetch_or(value, Ordering::AcqRel)
}

/// `portable_atomic::AtomicI128::fetch_xor` with `AcqRel` ordering; returns the previous value.
#[verifier::external_body]
pub(crate) fn i128_fetch_xor(atomic: &AtomicI128, value: i128) -> i128 {
    atomic.fetch_xor(value, Ordering::AcqRel)
}

/// `portable_atomic::AtomicI128::fetch_max` with `AcqRel` ordering; returns the previous value.
#[verifier::external_body]
pub(crate) fn i128_fetch_max(atomic: &AtomicI128, value: i128) -> i128 {
    atomic.fetch_max(value, Ordering::AcqRel)
}

/// `portable_atomic::AtomicI128::fetch_min` with `AcqRel` ordering; returns the previous value.
#[verifier::external_body]
pub(crate) fn i128_fetch_min(atomic: &AtomicI128, value: i128) -> i128 {
    atomic.fetch_min(value, Ordering::AcqRel)
}

/// `portable_atomic::AtomicI128::fetch_update` with `AcqRel` for the final store and `Acquire` for
/// loads. `Ok(previous)` means the closure returned `Some` for `previous` and
/// that value was replaced; `Err(previous)` means the closure returned `None`
/// for the value it saw last.
#[verifier::external_body]
pub(crate) fn i128_fetch_update<F: Fn(i128) -> Option<i128>>(atomic: &AtomicI128, f: F) -> (r: Result<i128, i128>)
    requires
        forall|x: i128| f.requires((x,)),
    ensures
        r matches Ok(previous) ==> exists|next: i128| f.ensures((previous,), Some(next)),
        r matches Err(previous) ==> f.ensures((previous,), None::<i128>),
{
    atomic.fetch_update(Ordering::AcqRel, Ordering::Acquire, f)
}

impl AtomicOps for AtomicI128 {
    type Value = i128;

    fn load(&self) -> i128 {
        i128_load(self)
    }

    fn store(&self, value: i128) {
        i128_store(self, value)
    }

    fn swap(&self, value: i128) -> i128 {
        i128_swap(self, value)
    }

    fn compare_set(&self, current: i128, new: i128) -> (r: Result<(), i128>) {
        match i128_compare_exchange(self, current, new) {
            Ok(_) => Ok(()),
            Err(actual) => Err(actual),
        }
    }

    fn compare_set_weak(&self, current: i128, new: i128) -> (r: Result<(), i128>) {
        match i128_compare_exchange_weak(self, current, new) {
            Ok(_) => Ok(()),
            Err(actual) => Err(actual),
        }
    }

    fn compare_exchange(&self, current: i128, new: i128) -> (r: i128) {
        match i128_compare_exchange(self, current, new) {
            Ok(previous) => previous,
            Err(actual) => actual,
        }
    }

    fn compare_exchange_weak(&self, current: i128, new: i128) -> (r: i128) {
        match i128_compare_exchange_weak(self, current, new) {
            Ok(previous) => previous,
            Err(actual) => actual,
        }
    }

    fn fetch_update<F: Fn(i128) -> i128>(&self, f: F) -> (r: i128) {
        let fr = &f;
        let lifted = |x: i128| -> (o: Option<i128>)
            ensures
                o matches Some(n) && fr.ensures((x,), n),
            { Some(fr(x)) };
        match i128_fetch_update(self, lifted) {
            Ok(previous) => previous,
            Err(previous) => previous,
        }
    }

    fn try_update<F: Fn(i128) -> Option<i128>>(&self, f: F) -> (r: Option<i128>) {
        match i128_fetch_update(self, f) {
            Ok(previous) => Some(previous),
            Err(_) => None,
        }
    }
}

impl AtomicNumberOps for AtomicI128 {
    open spec fn is_zero_value(value: i128) -> bool {
        value == 0
    }

    fn fetch_add(&self, delta: i128) -> i128 {
        i128_fetch_add(self, delta)
    }

    fn fetch_sub(&self, delta: i128) -> i128 {
        i128_fetch_sub(self, delta)
    }

    fn fetch_mul(&self, factor: i128) -> i128 {
        let step = |c: i128| -> (n: i128)
            ensures
                n == c.wrapping_mul(factor),
            { c.wrapping_mul(factor) };
        AtomicOps::fetch_update(self, step)
    }

    fn fetch_div(&self, divisor: i128) -> i128 {
        let step = |c: i128| -> (n: i128)
            ensures
                n == (match c.checked_div(divisor) {
                    Some(q) => q,
                    None => c,
                }),
            {
                match c.checked_div(divisor) {
                    Some(q) => q,
                    None => c,
                }
            };
        AtomicOps::fetch_update(self, step)
    }
}

impl AtomicValue for i128 {
    type Primitive = AtomicI128;

    type Inner = AtomicI128;

    fn new_primitive(value: i128) -> AtomicI128 {
        i128_new(value)
    }

    open spec fn raw_atomic(primitive: AtomicI128) -> AtomicI128 {
        primitive
    }

    fn inner(primitive: &AtomicI128) -> (r: &AtomicI128) {
        primitive
    }
}

impl AtomicIntegerValue for i128 {
    fn fetch_inc(primitive: &AtomicI128) -> i128 {
        i128_fetch_add(primitive, 1)
    }

    fn fetch_dec(primitive: &AtomicI128) -> i128 {
        i128_fetch_sub(primitive, 1)
    }

    fn fetch_and(primitive: &AtomicI128, value: i128) -> i128 {
        i128_fetch_and(primitive, value)
    }

    fn fetch_or(primitive: &AtomicI128, value: i128) -> i128 {
        i128_fetch_or(primitive, value)
    }

    fn fetch_xor(primitive: &AtomicI128, value: i128) -> i128 {
        i128_fetch_xor(primitive, value)
    }

    fn fetch_not(primitive: &AtomicI128) -> i128 {
        i128_fetch_xor(primitive, !0)
    }

    fn fetch_accumulate<F: Fn(i128, i128) -> i128>(primitive: &AtomicI128, x: i128, f: F) -> (r: i128) {
        let fr = &f;
        let step = |c: i128| -> (n: i128)
            ensures
                fr.ensures((c, x), n),
            { fr(c, x) };
        AtomicOps::fetch_update(primitive, step)
    }

    fn fetch_max(primitive: &AtomicI128, value: i128) -> i128 {
        i128_fetch_max(primitive, value)
    }

    fn fetch_min(primitive: &AtomicI128, value: i128) -> i128 {
        i128_fetch_min(primitive, value)
    }
}

} // verus!

