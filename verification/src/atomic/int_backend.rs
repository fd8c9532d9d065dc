//! Backends for the fixed-width integer values up to 64 bits and the pointer-sized
//! integers: each value type is stored in the standard library's atomic of the
//! same width.

use vstd::prelude::*;
use std::sync::atomic::Ordering;
use std::sync::atomic::{AtomicU8, AtomicI8, AtomicU16, AtomicI16, AtomicU32, AtomicI32, AtomicU64, AtomicI64, AtomicUsize, AtomicIsize};

use super::atomic_integer_value::AtomicIntegerValue;
use super::atomic_number_ops::AtomicNumberOps;
use super::atomic_ops::AtomicOps;
use super::atomic_value::AtomicValue;

verus! {

/// `std::sync::atomic::AtomicU8::compare_exchange` with `AcqRel` on success and
/// `Acquire` on failure. As the standard library documents it, a success
/// reports the expected value, and the strong form fails only when the stored
/// value differs from the expected one.
#[verifier::external_body]
pub(crate) fn u8_compare_exchange(atomic: &AtomicU8, current: u8, new: u8) -> (r: Result<u8, u8>)
    ensures
        r matches Ok(previous) ==> previous == current,
        r matches Err(actual) ==> actual != current,
{
    atomic.compare_exchange(current, new, Ordering::AcqRel, Ordering::Acquire)
}

/// `std::sync::atomic::AtomicU8::fetch_update` with `AcqRel` for the final store and
/// `Acquire` for loads. `Ok(previous)` means the closure returned `Some` for
/// `previous` and that value was replaced; `Err(previous)` means the closure
/// returned `None` for the value it saw last.
#[verifier::external_body]
pub(crate) fn u8_fetch_update<F: Fn(u8) -> Option<u8>>(atomic: &AtomicU8, f: F) -> (r: Result<u8, u8>)
    requires
        forall|x: u8| f.requires((x,)),
    ensures
        r matches Ok(previous) ==> exists|next: u8| f.ensures((previous,), Some(next)),
        r matches Err(previous) ==> f.ensures((previous,), None::<u8>),
{
    atomic.fetch_update(Ordering::AcqRel, Ordering::Acquire, f)
}

impl AtomicOps for AtomicU8 {
    type Value = u8;

    fn load(&self) -> u8 {
        self.load(Ordering::Acquire)
    }

    fn store(&self, value: u8) {
        self.store(value, Ordering::Release)
    }

    fn swap(&self, value: u8) -> u8 {
        self.swap(value, Ordering::AcqRel)
    }

    fn compare_set(&self, current: u8, new: u8) -> (r: Result<(), u8>) {
        match u8_compare_exchange(self, current, new) {
            Ok(_) => Ok(()),
            Err(actual) => Err(actual),
        }
    }

    fn compare_set_weak(&self, current: u8, new: u8) -> (r: Result<(), u8>) {
        match self.compare_exchange_weak(current, new, Ordering::AcqRel, Ordering::Acquire) {
            Ok(_) => Ok(()),
            Err(actual) => Err(actual),
        }
    }

    fn compare_exchange(&self, current: u8, new: u8) -> (r: u8) {
        match u8_compare_exchange(self, current, new) {
            Ok(previous) => previous,
            Err(actual) => actual,
        }
    }

    fn compare_exchange_weak(&self, current: u8, new: u8) -> (r: u8) {
        match self.compare_exchange_weak(current, new, Ordering::AcqRel, Ordering::Acquire) {
            Ok(previous) => previous,
            Err(actual) => actual,
        }
    }

    fn fetch_update<F: Fn(u8) -> u8>(&self, f: F) -> (r: u8) {
        let fr = &f;
        let lifted = |x: u8| -> (o: Option<u8>)
            ensures
                o matches Some(n) && fr.ensures((x,), n),
            { Some(fr(x)) };
        match u8_fetch_update(self, lifted) {
            Ok(previous) => previous,
            Err(previous) => previous,
        }
    }

    fn try_update<F: Fn(u8) -> Option<u8>>(&self, f: F) -> (r: Option<u8>) {
        match u8_fetch_update(self, f) {
            Ok(previous) => Some(previous),
            Err(_) => None,
        }
    }
}

impl AtomicNumberOps for AtomicU8 {
    open spec fn is_zero_value(value: u8) -> bool {
        value == 0
    }

    fn fetch_add(&self, delta: u8) -> u8 {
        self.fetch_add(delta, Ordering::Relaxed)
    }

    fn fetch_sub(&self, delta: u8) -> u8 {
        self.fetch_sub(delta, Ordering::Relaxed)
    }

    fn fetch_mul(&self, factor: u8) -> u8 {
        let step = |c: u8| -> (n: u8)
            ensures
                n == c.wrapping_mul(factor),
            { c.wrapping_mul(factor) };
        AtomicOps::fetch_update(self, step)
    }

    fn fetch_div(&self, divisor: u8) -> u8 {
        let step = |c: u8| -> (n: u8)
            ensures
                n == c / divisor,
            { c / divisor };
        AtomicOps::fetch_update(self, step)
    }
}

impl AtomicValue for u8 {
    type Primitive = AtomicU8;

    type Inner = AtomicU8;

    fn new_primitive(value: u8) -> AtomicU8 {
        AtomicU8::new(value)
    }

    open spec fn raw_atomic(primitive: AtomicU8) -> AtomicU8 {
        primitive
    }

    fn inner(primitive: &AtomicU8) -> (r: &AtomicU8) {
        primitive
    }
}

impl AtomicIntegerValue for u8 {
    fn fetch_inc(primitive: &AtomicU8) -> u8 {
        primitive.fetch_add(1, Ordering::Relaxed)
    }

    fn fetch_dec(primitive: &AtomicU8) -> u8 {
        primitive.fetch_sub(1, Ordering::Relaxed)
    }

    fn fetch_and(primitive: &AtomicU8, value: u8) -> u8 {
        primitive.fetch_and(value, Ordering::AcqRel)
    }

    fn fetch_or(primitive: &AtomicU8, value: u8) -> u8 {
        primitive.fetch_or(value, Ordering::AcqRel)
    }

    fn fetch_xor(primitive: &AtomicU8, value: u8) -> u8 {
        primitive.fetch_xor(value, Ordering::AcqRel)
    }

    fn fetch_not(primitive: &AtomicU8) -> u8 {
        primitive.fetch_xor(!0, Ordering::AcqRel)
    }

    fn fetch_accumulate<F: Fn(u8, u8) -> u8>(primitive: &AtomicU8, x: u8, f: F) -> (r: u8) {
        let fr = &f;
        let step = |c: u8| -> (n: u8)
            ensures
                fr.ensures((c, x), n),
            { fr(c, x) };
        AtomicOps::fetch_update(primitive, step)
    }

    fn fetch_max(primitive: &AtomicU8, value: u8) -> u8 {
        primitive.fetch_max(value, Ordering::AcqRel)
    }

    fn fetch_min(primitive: &AtomicU8, value: u8) -> u8 {
        primitive.fetch_min(value, Ordering::AcqRel)
    }
}

/// `std::sync::atomic::AtomicI8::compare_exchange` with `AcqRel` on success and
/// `Acquire` on failure. As the standard library documents it, a success
/// reports the expected value, and the strong form fails only when the stored
/// value differs from the expected one.
#[verifier::external_body]
pub(crate) fn i8_compare_exchange(atomic: &AtomicI8, current: i8, new: i8) -> (r: Result<i8, i8>)
    ensures
        r matches Ok(previous) ==> previous == current,
        r matches Err(actual) ==> actual != current,
{
    atomic.compare_exchange(current, new, Ordering::AcqRel, Ordering::Acquire)
}

/// `std::sync::atomic::AtomicI8::fetch_update` with `AcqRel` for the final store and
/// `Acquire` for loads. `Ok(previous)` means the closure returned `Some` for
/// `previous` and that value was replaced; `Err(previous)` means the closure
/// returned `None` for the value it saw last.
#[verifier::external_body]
pub(crate) fn i8_fetch_update<F: Fn(i8) -> Option<i8>>(atomic: &AtomicI8, f: F) -> (r: Result<i8, i8>)
    requires
        forall|x: i8| f.requires((x,)),
    ensures
        r matches Ok(previous) ==> exists|next: i8| f.ensures((previous,), Some(next)),
        r matches Err(previous) ==> f.ensures((previous,), None::<i8>),
{
    atomic.fetch_update(Ordering::AcqRel, Ordering::Acquire, f)
}

impl AtomicOps for AtomicI8 {
    type Value = i8;

    fn load(&self) -> i8 {
        self.load(Ordering::Acquire)
    }

    fn store(&self, value: i8) {
        self.store(value, Ordering::Release)
    }

    fn swap(&self, value: i8) -> i8 {
        self.swap(value, Ordering::AcqRel)
    }

    fn compare_set(&self, current: i8, new: i8) -> (r: Result<(), i8>) {
        match i8_compare_exchange(self, current, new) {
            Ok(_) => Ok(()),
            Err(actual) => Err(actual),
        }
    }

    fn compare_set_weak(&self, current: i8, new: i8) -> (r: Result<(), i8>) {
        match self.compare_exchange_weak(current, new, Ordering::AcqRel, Ordering::Acquire) {
            Ok(_) => Ok(()),
            Err(actual) => Err(actual),
        }
    }

    fn compare_exchange(&self, current: i8, new: i8) -> (r: i8) {
        match i8_compare_exchange(self, current, new) {
            Ok(previous) => previous,
            Err(actual) => actual,
        }
    }

    fn compare_exchange_weak(&self, current: i8, new: i8) -> (r: i8) {
        match self.compare_exchange_weak(current, new, Ordering::AcqRel, Ordering::Acquire) {
            Ok(previous) => previous,
            Err(actual) => actual,
        }
    }

    fn fetch_update<F: Fn(i8) -> i8>(&self, f: F) -> (r: i8) {
        let fr = &f;
        let lifted = |x: i8| -> (o: Option<i8>)
            ensures
                o matches Some(n) && fr.ensures((x,), n),
            { Some(fr(x)) };
        match i8_fetch_update(self, lifted) {
            Ok(previous) => previous,
            Err(previous) => previous,
        }
    }

    fn try_update<F: Fn(i8) -> Option<i8>>(&self, f: F) -> (r: Option<i8>) {
        match i8_fetch_update(self, f) {
            Ok(previous) => Some(previous),
            Err(_) => None,
        }
    }
}

impl AtomicNumberOps for AtomicI8 {
    open spec fn is_zero_value(value: i8) -> bool {
        value == 0
    }

    fn fetch_add(&self, delta: i8) -> i8 {
        self.fetch_add(delta, Ordering::Relaxed)
    }

    fn fetch_sub(&self, delta: i8) -> i8 {
        self.fetch_sub(delta, Ordering::Relaxed)
    }

    fn fetch_mul(&self, factor: i8) -> i8 {
        let step = |c: i8| -> (n: i8)
            ensures
                n == c.wrapping_mul(factor),
            { c.wrapping_mul(factor) };
        AtomicOps::fetch_update(self, step)
    }

    fn fetch_div(&self, divisor: i8) -> i8 {
        let step = |c: i8| -> (n: i8)
            ensures
                n == (match c.checked_div(divisor) {
                    Some(q) => q,
                    None => c,
                }),
            {
                match c.checked_div(divisor) {
                    Some(q) => q,
                    None => c,
                }
            };
        AtomicOps::fetch_update(self, step)
    }
}

impl AtomicValue for i8 {
    type Primitive = AtomicI8;

    type Inner = AtomicI8;

    fn new_primitive(value: i8) -> AtomicI8 {
        AtomicI8::new(value)
    }

    open spec fn raw_atomic(primitive: AtomicI8) -> AtomicI8 {
        primitive
    }

    fn inner(primitive: &AtomicI8) -> (r: &AtomicI8) {
        primitive
    }
}

impl AtomicIntegerValue for i8 {
    fn fetch_inc(primitive: &AtomicI8) -> i8 {
        primitive.fetch_add(1, Ordering::Relaxed)
    }

    fn fetch_dec(primitive: &AtomicI8) -> i8 {
        primitive.fetch_sub(1, Ordering::Relaxed)
    }

    fn fetch_and(primitive: &AtomicI8, value: i8) -> i8 {
        primitive.fetch_and(value, Ordering::AcqRel)
    }

    fn fetch_or(primitive: &AtomicI8, value: i8) -> i8 {
        primitive.fetch_or(value, Ordering::AcqRel)
    }

    fn fetch_xor(primitive: &AtomicI8, value: i8) -> i8 {
        primitive.fetch_xor(value, Ordering::AcqRel)
    }

    fn fetch_not(primitive: &AtomicI8) -> i8 {
        primitive.fetch_xor(!0, Ordering::AcqRel)
    }

    fn fetch_accumulate<F: Fn(i8, i8) -> i8>(primitive: &AtomicI8, x: i8, f: F) -> (r: i8) {
        let fr = &f;
        let step = |c: i8| -> (n: i8)
            ensures
                fr.ensures((c, x), n),
            { fr(c, x) };
        AtomicOps::fetch_update(primitive, step)
    }

    fn fetch_max(primitive: &AtomicI8, value: i8) -> i8 {
        primitive.fetch_max(value, Ordering::AcqRel)
    }

    fn fetch_min(primitive: &AtomicI8, value: i8) -> i8 {
        primitive.fetch_min(value, Ordering::AcqRel)
    }
}

/// `std::sync::atomic::AtomicU16::compare_exchange` with `AcqRel` on success and
/// `Acquire` on failure. As the standard library documents it, a success
/// reports the expected value, and the strong form fails only when the stored
/// value differs from the expected one.
#[verifier::external_body]
pub(crate) fn u16_compare_exchange(atomic: &AtomicU16, current: u16, new: u16) -> (r: Result<u16, u16>)
    ensures
        r matches Ok(previous) ==> previous == current,
        r matches Err(actual) ==> actual != current,
{
    atomic.compare_exchange(current, new, Ordering::AcqRel, Ordering::Acquire)
}

/// `std::sync::atomic::AtomicU16::fetch_update` with `AcqRel` for the final store and
/// `Acquire` for loads. `Ok(previous)` means the closure returned `Some` for
/// `previous` and that value was replaced; `Err(previous)` means the closure
/// returned `None` for the value it saw last.
#[verifier::external_body]
pub(crate) fn u16_fetch_update<F: Fn(u16) -> Option<u16>>(atomic: &AtomicU16, f: F) -> (r: Result<u16, u16>)
    requires
        forall|x: u16| f.requires((x,)),
    ensures
        r matches Ok(previous) ==> exists|next: u16| f.ensures((previous,), Some(next)),
        r matches Err(previous) ==> f.ensures((previous,), None::<u16>),
{
    atomic.fetch_update(Ordering::AcqRel, Ordering::Acquire, f)
}

impl AtomicOps for AtomicU16 {
    type Value = u16;

    fn load(&self) -> u16 {
        self.load(Ordering::Acquire)
    }

    fn store(&self, value: u16) {
        self.store(value, Ordering::Release)
    }

    fn swap(&self, value: u16) -> u16 {
        self.swap(value, Ordering::AcqRel)
    }

    fn compare_set(&self, current: u16, new: u16) -> (r: Result<(), u16>) {
        match u16_compare_exchange(self, current, new) {
            Ok(_) => Ok(()),
            Err(actual) => Err(actual),
        }
    }

    fn compare_set_weak(&self, current: u16, new: u16) -> (r: Result<(), u16>) {
        match self.compare_exchange_weak(current, new, Ordering::AcqRel, Ordering::Acquire) {
            Ok(_) => Ok(()),
            Err(actual) => Err(actual),
        }
    }

    fn compare_exchange(&self, current: u16, new: u16) -> (r: u16) {
        match u16_compare_exchange(self, current, new) {
            Ok(previous) => previous,
            Err(actual) => actual,
        }
    }

    fn compare_exchange_weak(&self, current: u16, new: u16) -> (r: u16) {
        match self.compare_exchange_weak(current, new, Ordering::AcqRel, Ordering::Acquire) {
            Ok(previous) => previous,
            Err(actual) => actual,
        }
    }

    fn fetch_update<F: Fn(u16) -> u16>(&self, f: F) -> (r: u16) {
        let fr = &f;
        let lifted = |x: u16| -> (o: Option<u16>)
            ensures
                o matches Some(n) && fr.ensures((x,), n),
            { Some(fr(x)) };
        match u16_fetch_update(self, lifted) {
            Ok(previous) => previous,
            Err(previous) => previous,
        }
    }

    fn try_update<F: Fn(u16) -> Option<u16>>(&self, f: F) -> (r: Option<u16>) {
        match u16_fetch_update(self, f) {
            Ok(previous) => Some(previous),
            Err(_) => None,
        }
    }
}

impl AtomicNumberOps for AtomicU16 {
    open spec fn is_zero_value(value: u16) -> bool {
        value == 0
    }

    fn fetch_add(&self, delta: u16) -> u16 {
        self.fetch_add(delta, Ordering::Relaxed)
    }

    fn fetch_sub(&self, delta: u16) -> u16 {
        self.fetch_sub(delta, Ordering::Relaxed)
    }

    fn fetch_mul(&self, factor: u16) -> u16 {
        let step = |c: u16| -> (n: u16)
            ensures
                n == c.wrapping_mul(factor),
            { c.wrapping_mul(factor) };
        AtomicOps::fetch_update(self, step)
    }

    fn fetch_div(&self, divisor: u16) -> u16 {
        let step = |c: u16| -> (n: u16)
            ensures
                n == c / divisor,
            { c / divisor };
        AtomicOps::fetch_update(self, step)
    }
}

impl AtomicValue for u16 {
    type Primitive = AtomicU16;

    type Inner = AtomicU16;

    fn new_primitive(value: u16) -> AtomicU16 {
        AtomicU16::new(value)
    }

    open spec fn raw_atomic(primitive: AtomicU16) -> AtomicU16 {
        primitive
    }

    fn inner(primitive: &AtomicU16) -> (r: &AtomicU16) {
        primitive
    }
}

impl AtomicIntegerValue for u16 {
    fn fetch_inc(primitive: &AtomicU16) -> u16 {
        primitive.fetch_add(1, Ordering::Relaxed)
    }

    fn fetch_dec(primitive: &AtomicU16) -> u16 {
        primitive.fetch_sub(1, Ordering::Relaxed)
    }

    fn fetch_and(primitive: &AtomicU16, value: u16) -> u16 {
        primitive.fetch_and(value, Ordering::AcqRel)
    }

    fn fetch_or(primitive: &AtomicU16, value: u16) -> u16 {
        primitive.fetch_or(value, Ordering::AcqRel)
    }

    fn fetch_xor(primitive: &AtomicU16, value: u16) -> u16 {
        primitive.fetch_xor(value, Ordering::AcqRel)
    }

    fn fetch_not(primitive: &AtomicU16) -> u16 {
        primitive.fetch_xor(!0, Ordering::AcqRel)
    }

    fn fetch_accumulate<F: Fn(u16, u16) -> u16>(primitive: &AtomicU16, x: u16, f: F) -> (r: u16) {
        let fr = &f;
        let step = |c: u16| -> (n: u16)
            ensures
                fr.ensures((c, x), n),
            { fr(c, x) };
        AtomicOps::fetch_update(primitive, step)
    }

    fn fetch_max(primitive: &AtomicU16, value: u16) -> u16 {
        primitive.fetch_max(value, Ordering::AcqRel)
    }

    fn fetch_min(primitive: &AtomicU16, value: u16) -> u16 {
        primitive.fetch_min(value, Ordering::AcqRel)
    }
}

/// `std::sync::atomic::AtomicI16::compare_exchange` with `AcqRel` on success and
/// `Acquire` on failure. As the standard library documents it, a success
/// reports the expected value, and the strong form fails only when the stored
/// value differs from the expected one.
#[verifier::external_body]
pub(crate) fn i16_compare_exchange(atomic: &AtomicI16, current: i16, new: i16) -> (r: Result<i16, i16>)
    ensures
        r matches Ok(previous) ==> previous == current,
        r matches Err(actual) ==> actual != current,
{
    atomic.compare_exchange(current, new, Ordering::AcqRel, Ordering::Acquire)
}

/// `std::sync::atomic::AtomicI16::fetch_update` with `AcqRel` for the final store and
/// `Acquire` for loads. `Ok(previous)` means the closure returned `Some` for
/// `previous` and that value was replaced; `Err(previous)` means the closure
/// returned `None` for the value it saw last.
#[verifier::external_body]
pub(crate) fn i16_fetch_update<F: Fn(i16) -> Option<i16>>(atomic: &AtomicI16, f: F) -> (r: Result<i16, i16>)
    requires
        forall|x: i16| f.requires((x,)),
    ensures
        r matches Ok(previous) ==> exists|next: i16| f.ensures((previous,), Some(next)),
        r matches Err(previous) ==> f.ensures((previous,), None::<i16>),
{
    atomic.fetch_update(Ordering::AcqRel, Ordering::Acquire, f)
}

impl AtomicOps for AtomicI16 {
    type Value = i16;

    fn load(&self) -> i16 {
        self.load(Ordering::Acquire)
    }

    fn store(&self, value: i16) {
        self.store(value, Ordering::Release)
    }

    fn swap(&self, value: i16) -> i16 {
        self.swap(value, Ordering::AcqRel)
    }

    fn compare_set(&self, current: i16, new: i16) -> (r: Result<(), i16>) {
        match i16_compare_exchange(self, current, new) {
            Ok(_) => Ok(()),
            Err(actual) => Err(actual),
        }
    }

    fn compare_set_weak(&self, current: i16, new: i16) -> (r: Result<(), i16>) {
        match self.compare_exchange_weak(current, new, Ordering::AcqRel, Ordering::Acquire) {
            Ok(_) => Ok(()),
            Err(actual) => Err(actual),
        }
    }

    fn compare_exchange(&self, current: i16, new: i16) -> (r: i16) {
        match i16_compare_exchange(self, current, new) {
            Ok(previous) => previous,
            Err(actual) => actual,
        }
    }

    fn compare_exchange_weak(&self, current: i16, new: i16) -> (r: i16) {
        match self.compare_exchange_weak(current, new, Ordering::AcqRel, Ordering::Acquire) {
            Ok(previous) => previous,
            Err(actual) => actual,
        }
    }

    fn fetch_update<F: Fn(i16) -> i16>(&self, f: F) -> (r: i16) {
        let fr = &f;
        let lifted = |x: i16| -> (o: Option<i16>)
            ensures
                o matches Some(n) && fr.ensures((x,), n),
            { Some(fr(x)) };
        match i16_fetch_update(self, lifted) {
            Ok(previous) => previous,
            Err(previous) => previous,
        }
    }

    fn try_update<F: Fn(i16) -> Option<i16>>(&self, f: F) -> (r: Option<i16>) {
        match i16_fetch_update(self, f) {
            Ok(previous) => Some(previous),
            Err(_) => None,
        }
    }
}

impl AtomicNumberOps for AtomicI16 {
    open spec fn is_zero_value(value: i16) -> bool {
        value == 0
    }

    fn fetch_add(&self, delta: i16) -> i16 {
        self.fetch_add(delta, Ordering::Relaxed)
    }

    fn fetch_sub(&self, delta: i16) -> i16 {
        self.fetch_sub(delta, Ordering::Relaxed)
    }

    fn fetch_mul(&self, factor: i16) -> i16 {
        let step = |c: i16| -> (n: i16)
            ensures
                n == c.wrapping_mul(factor),
            { c.wrapping_mul(factor) };
        AtomicOps::fetch_update(self, step)
    }

    fn fetch_div(&self, divisor: i16) -> i16 {
        let step = |c: i16| -> (n: i16)
            ensures
                n == (match c.checked_div(divisor) {
                    Some(q) => q,
                    None => c,
                }),
            {
                match c.checked_div(divisor) {
                    Some(q) => q,
                    None => c,
                }
            };
        AtomicOps::fetch_update(self, step)
    }
}

impl AtomicValue for i16 {
    type Primitive = AtomicI16;

    type Inner = AtomicI16;

    fn new_primitive(value: i16) -> AtomicI16 {
        AtomicI16::new(value)
    }

    open spec fn raw_atomic(primitive: AtomicI16) -> AtomicI16 {
        primitive
    }

    fn inner(primitive: &AtomicI16) -> (r: &AtomicI16) {
        primitive
    }
}

impl AtomicIntegerValue for i16 {
    fn fetch_inc(primitive: &AtomicI16) -> i16 {
        primitive.fetch_add(1, Ordering::Relaxed)
    }

    fn fetch_dec(primitive: &AtomicI16) -> i16 {
        primitive.fetch_sub(1, Ordering::Relaxed)
    }

    fn fetch_and(primitive: &AtomicI16, value: i16) -> i16 {
        primitive.fetch_and(value, Ordering::AcqRel)
    }

    fn fetch_or(primitive: &AtomicI16, value: i16) -> i16 {
        primitive.fetch_or(value, Ordering::AcqRel)
    }

    fn fetch_xor(primitive: &AtomicI16, value: i16) -> i16 {
        primitive.fetch_xor(value, Ordering::AcqRel)
    }

    fn fetch_not(primitive: &AtomicI16) -> i16 {
        primitive.fetch_xor(!0, Ordering::AcqRel)
    }

    fn fetch_accumulate<F: Fn(i16, i16) -> i16>(primitive: &AtomicI16, x: i16, f: F) -> (r: i16) {
        let fr = &f;
        let step = |c: i16| -> (n: i16)
            ensures
                fr.ensures((c, x), n),
            { fr(c, x) };
        AtomicOps::fetch_update(primitive, step)
    }

    fn fetch_max(primitive: &AtomicI16, value: i16) -> i16 {
        primitive.fetch_max(value, Ordering::AcqRel)
    }

    fn fetch_min(primitive: &AtomicI16, value: i16) -> i16 {
        primitive.fetch_min(value, Ordering::AcqRel)
    }
}

/// `std::sync::atomic::AtomicU32::compare_exchange` with `AcqRel` on success and
/// `Acquire` on failure. As the standard library documents it, a success
/// reports the expected value, and the strong form fails only when the stored
/// value differs from the expected one.
#[verifier::external_body]
pub(crate) fn u32_compare_exchange(atomic: &AtomicU32, current: u32, new: u32) -> (r: Result<u32, u32>)
    ensures
        r matches Ok(previous) ==> previous == current,
        r matches Err(actual) ==> actual != current,
{
    atomic.compare_exchange(current, new, Ordering::AcqRel, Ordering::Acquire)
}

/// `std::sync::atomic::AtomicU32::fetch_update` with `AcqRel` for the final store and
/// `Acquire` for loads. `Ok(previous)` means the closure returned `Some` for
/// `previous` and that value was replaced; `Err(previous)` means the closure
/// returned `None` for the value it saw last.
#[verifier::external_body]
pub(crate) fn u32_fetch_update<F: Fn(u32) -> Option<u32>>(atomic: &AtomicU32, f: F) -> (r: Result<u32, u32>)
    requires
        forall|x: u32| f.requires((x,)),
    ensures
        r matches Ok(previous) ==> exists|next: u32| f.ensures((previous,), Some(next)),
        r matches Err(previous) ==> f.ensures((previous,), None::<u32>),
{
    atomic.fetch_update(Ordering::AcqRel, Ordering::Acquire, f)
}

impl AtomicOps for AtomicU32 {
    type Value = u32;

    fn load(&self) -> u32 {
        self.load(Ordering::Acquire)
    }

    fn store(&self, value: u32) {
        self.store(value, Ordering::Release)
    }

    fn swap(&self, value: u32) -> u32 {
        self.swap(value, Ordering::AcqRel)
    }

    fn compare_set(&self, current: u32, new: u32) -> (r: Result<(), u32>) {
        match u32_compare_exchange(self, current, new) {
            Ok(_) => Ok(()),
            Err(actual) => Err(actual),
        }
    }

    fn compare_set_weak(&self, current: u32, new: u32) -> (r: Result<(), u32>) {
        match self.compare_exchange_weak(current, new, Ordering::AcqRel, Ordering::Acquire) {
            Ok(_) => Ok(()),
            Err(actual) => Err(actual),
        }
    }

    fn compare_exchange(&self, current: u32, new: u32) -> (r: u32) {
        match u32_compare_exchange(self, current, new) {
            Ok(previous) => previous,
            Err(actual) => actual,
        }
    }

    fn compare_exchange_weak(&self, current: u32, new: u32) -> (r: u32) {
        match self.compare_exchange_weak(current, new, Ordering::AcqRel, Ordering::Acquire) {
            Ok(previous) => previous,
            Err(actual) => actual,
        }
    }

    fn fetch_update<F: Fn(u32) -> u32>(&self, f: F) -> (r: u32) {
        let fr = &f;
        let lifted = |x: u32| -> (o: Option<u32>)
            ensures
                o matches Some(n) && fr.ensures((x,), n),
            { Some(fr(x)) };
        match u32_fetch_update(self, lifted) {
            Ok(previous) => previous,
            Err(previous) => previous,
        }
    }

    fn try_update<F: Fn(u32) -> Option<u32>>(&self, f: F) -> (r: Option<u32>) {
        match u32_fetch_update(self, f) {
            Ok(previous) => Some(previous),
            Err(_) => None,
        }
    }
}

impl AtomicNumberOps for AtomicU32 {
    open spec fn is_zero_value(value: u32) -> bool {
        value == 0
    }

    fn fetch_add(&self, delta: u32) -> u32 {
        self.fetch_add(delta, Ordering::Relaxed)
    }

    fn fetch_sub(&self, delta: u32) -> u32 {
        self.fetch_sub(delta, Ordering::Relaxed)
    }

    fn fetch_mul(&self, factor: u32) -> u32 {
        let step = |c: u32| -> (n: u32)
            ensures
                n == c.wrapping_mul(factor),
            { c.wrapping_mul(factor) };
        AtomicOps::fetch_update(self, step)
    }

    fn fetch_div(&self, divisor: u32) -> u32 {
        let step = |c: u32| -> (n: u32)
            ensures
                n == c / divisor,
            { c / divisor };
        AtomicOps::fetch_update(self, step)
    }
}

impl AtomicValue for u32 {
    type Primitive = AtomicU32;

    type Inner = AtomicU32;

    fn new_primitive(value: u32) -> AtomicU32 {
        AtomicU32::new(value)
    }

    open spec fn raw_atomic(primitive: AtomicU32) -> AtomicU32 {
        primitive
    }

    fn inner(primitive: &AtomicU32) -> (r: &AtomicU32) {
        primitive
    }
}

impl AtomicIntegerValue for u32 {
    fn fetch_inc(primitive: &AtomicU32) -> u32 {
        primitive.fetch_add(1, Ordering::Relaxed)
    }

    fn fetch_dec(primitive: &AtomicU32) -> u32 {
        primitive.fetch_sub(1, Ordering::Relaxed)
    }

    fn fetch_and(primitive: &AtomicU32, value: u32) -> u32 {
        primitive.fetch_and(value, Ordering::AcqRel)
    }

    fn fetch_or(primitive: &AtomicU32, value: u32) -> u32 {
        primitive.fetch_or(value, Ordering::AcqRel)
    }

    fn fetch_xor(primitive: &AtomicU32, value: u32) -> u32 {
        primitive.fetch_xor(value, Ordering::AcqRel)
    }

    fn fetch_not(primitive: &AtomicU32) -> u32 {
        primitive.fetch_xor(!0, Ordering::AcqRel)
    }

    fn fetch_accumulate<F: Fn(u32, u32) -> u32>(primitive: &AtomicU32, x: u32, f: F) -> (r: u32) {
        let fr = &f;
        let step = |c: u32| -> (n: u32)
            ensures
                fr.ensures((c, x), n),
            { fr(c, x) };
        AtomicOps::fetch_update(primitive, step)
    }

    fn fetch_max(primitive: &AtomicU32, value: u32) -> u32 {
        primitive.fetch_max(value, Ordering::AcqRel)
    }

    fn fetch_min(primitive: &AtomicU32, value: u32) -> u32 {
        primitive.fetch_min(value, Ordering::AcqRel)
    }
}

/// `std::sync::atomic::AtomicI32::compare_exchange` with `AcqRel` on success and
/// `Acquire` on failure. As the standard library documents it, a success
/// reports the expected value, and the strong form fails only when the stored
/// value differs from the expected one.
#[verifier::external_body]
pub(crate) fn i32_compare_exchange(atomic: &AtomicI32, current: i32, new: i32) -> (r: Result<i32, i32>)
    ensures
        r matches Ok(previous) ==> previous == current,
        r matches Err(actual) ==> actual != current,
{
    atomic.compare_exchange(current, new, Ordering::AcqRel, Ordering::Acquire)
}

/// `std::sync::atomic::AtomicI32::fetch_update` with `AcqRel` for the final store and
/// `Acquire` for loads. `Ok(previous)` means the closure returned `Some` for
/// `previous` and that value was replaced; `Err(previous)` means the closure
/// returned `None` for the value it saw last.
#[verifier::external_body]
pub(crate) fn i32_fetch_update<F: Fn(i32) -> Option<i32>>(atomic: &AtomicI32, f: F) -> (r: Result<i32, i32>)
    requires
        forall|x: i32| f.requires((x,)),
    ensures
        r matches Ok(previous) ==> exists|next: i32| f.ensures((previous,), Some(next)),
        r matches Err(previous) ==> f.ensures((previous,), None::<i32>),
{
    atomic.fetch_update(Ordering::AcqRel, Ordering::Acquire, f)
}

impl AtomicOps for AtomicI32 {
    type Value = i32;

    fn load(&self) -> i32 {
        self.load(Ordering::Acquire)
    }

    fn store(&self, value: i32) {
        self.store(value, Ordering::Release)
    }

    fn swap(&self, value: i32) -> i32 {
        self.swap(value, Ordering::AcqRel)
    }

    fn compare_set(&self, current: i32, new: i32) -> (r: Result<(), i32>) {
        match i32_compare_exchange(self, current, new) {
            Ok(_) => Ok(()),
            Err(actual) => Err(actual),
        }
    }

    fn compare_set_weak(&self, current: i32, new: i32) -> (r: Result<(), i32>) {
        match self.compare_exchange_weak(current, new, Ordering::AcqRel, Ordering::Acquire) {
            Ok(_) => Ok(()),
            Err(actual) => Err(actual),
        }
    }

    fn compare_exchange(&self, current: i32, new: i32) -> (r: i32) {
        match i32_compare_exchange(self, current, new) {
            Ok(previous) => previous,
            Err(actual) => actual,
        }
    }

    fn compare_exchange_weak(&self, current: i32, new: i32) -> (r: i32) {
        match self.compare_exchange_weak(current, new, Ordering::AcqRel, Ordering::Acquire) {
            Ok(previous) => previous,
            Err(actual) => actual,
        }
    }

    fn fetch_update<F: Fn(i32) -> i32>(&self, f: F) -> (r: i32) {
        let fr = &f;
        let lifted = |x: i32| -> (o: Option<i32>)
            ensures
                o matches Some(n) && fr.ensures((x,), n),
            { Some(fr(x)) };
        match i32_fetch_update(self, lifted) {
            Ok(previous) => previous,
            Err(previous) => previous,
        }
    }

    fn try_update<F: Fn(i32) -> Option<i32>>(&self, f: F) -> (r: Option<i32>) {
        match i32_fetch_update(self, f) {
            Ok(previous) => Some(previous),
            Err(_) => None,
        }
    }
}

impl AtomicNumberOps for AtomicI32 {
    open spec fn is_zero_value(value: i32) -> bool {
        value == 0
    }

    fn fetch_add(&self, delta: i32) -> i32 {
        self.fetch_add(delta, Ordering::Relaxed)
    }

    fn fetch_sub(&self, delta: i32) -> i32 {
        self.fetch_sub(delta, Ordering::Relaxed)
    }

    fn fetch_mul(&self, factor: i32) -> i32 {
        let step = |c: i32| -> (n: i32)
            ensures
                n == c.wrapping_mul(factor),
            { c.wrapping_mul(factor) };
        AtomicOps::fetch_update(self, step)
    }

    fn fetch_div(&self, divisor: i32) -> i32 {
        let step = |c: i32| -> (n: i32)
            ensures
                n == (match c.checked_div(divisor) {
                    Some(q) => q,
                    None => c,
                }),
            {
                match c.checked_div(divisor) {
                    Some(q) => q,
                    None => c,
                }
            };
        AtomicOps::fetch_update(self, step)
    }
}

impl AtomicValue for i32 {
    type Primitive = AtomicI32;

    type Inner = AtomicI32;

    fn new_primitive(value: i32) -> AtomicI32 {
        AtomicI32::new(value)
    }

    open spec fn raw_atomic(primitive: AtomicI32) -> AtomicI32 {
        primitive
    }

    fn inner(primitive: &AtomicI32) -> (r: &AtomicI32) {
        primitive
    }
}

impl AtomicIntegerValue for i32 {
    fn fetch_inc(primitive: &AtomicI32) -> i32 {
        primitive.fetch_add(1, Ordering::Relaxed)
    }

    fn fetch_dec(primitive: &AtomicI32) -> i32 {
        primitive.fetch_sub(1, Ordering::Relaxed)
    }

    fn fetch_and(primitive: &AtomicI32, value: i32) -> i32 {
        primitive.fetch_and(value, Ordering::AcqRel)
    }

    fn fetch_or(primitive: &AtomicI32, value: i32) -> i32 {
        primitive.fetch_or(value, Ordering::AcqRel)
    }

    fn fetch_xor(primitive: &AtomicI32, value: i32) -> i32 {
        primitive.fetch_xor(value, Ordering::AcqRel)
    }

    fn fetch_not(primitive: &AtomicI32) -> i32 {
        primitive.fetch_xor(!0, Ordering::AcqRel)
    }

    fn fetch_accumulate<F: Fn(i32, i32) -> i32>(primitive: &AtomicI32, x: i32, f: F) -> (r: i32) {
        let fr = &f;
        let step = |c: i32| -> (n: i32)
            ensures
                fr.ensures((c, x), n),
            { fr(c, x) };
        AtomicOps::fetch_update(primitive, step)
    }

    fn fetch_max(primitive: &AtomicI32, value: i32) -> i32 {
        primitive.fetch_max(value, Ordering::AcqRel)
    }

    fn fetch_min(primitive: &AtomicI32, value: i32) -> i32 {
        primitive.fetch_min(value, Ordering::AcqRel)
    }
}

/// `std::sync::atomic::AtomicU64::compare_exchange` with `AcqRel` on success and
/// `Acquire` on failure. As the standard library documents it, a success
/// reports the expected value, and the strong form fails only when the stored
/// value differs from the expected one.
#[verifier::external_body]
pub(crate) fn u64_compare_exchange(atomic: &AtomicU64, current: u64, new: u64) -> (r: Result<u64, u64>)
    ensures
        r matches Ok(previous) ==> previous == current,
        r matches Err(actual) ==> actual != current,
{
    atomic.compare_exchange(current, new, Ordering::AcqRel, Ordering::Acquire)
}

/// `std::sync::atomic::AtomicU64::fetch_update` with `AcqRel` for the final store and
/// `Acquire` for loads. `Ok(previous)` means the closure returned `Some` for
/// `previous` and that value was replaced; `Err(previous)` means the closure
/// returned `None` for the value it saw last.
#[verifier::external_body]
pub(crate) fn u64_fetch_update<F: Fn(u64) -> Option<u64>>(atomic: &AtomicU64, f: F) -> (r: Result<u64, u64>)
    requires
        forall|x: u64| f.requires((x,)),
    ensures
        r matches Ok(previous) ==> exists|next: u64| f.ensures((previous,), Some(next)),
        r matches Err(previous) ==> f.ensures((previous,), None::<u64>),
{
    atomic.fetch_update(Ordering::AcqRel, Ordering::Acquire, f)
}

impl AtomicOps for AtomicU64 {
    type Value = u64;

    fn load(&self) -> u64 {
        self.load(Ordering::Acquire)
    }

    fn store(&self, value: u64) {
        self.store(value, Ordering::Release)
    }

    fn swap(&self, value: u64) -> u64 {
        self.swap(value, Ordering::AcqRel)
    }

    fn compare_set(&self, current: u64, new: u64) -> (r: Result<(), u64>) {
        match u64_compare_exchange(self, current, new) {
            Ok(_) => Ok(()),
            Err(actual) => Err(actual),
        }
    }

    fn compare_set_weak(&self, current: u64, new: u64) -> (r: Result<(), u64>) {
        match self.compare_exchange_weak(current, new, Ordering::AcqRel, Ordering::Acquire) {
            Ok(_) => Ok(()),
            Err(actual) => Err(actual),
        }
    }

    fn compare_exchange(&self, current: u64, new: u64) -> (r: u64) {
        match u64_compare_exchange(self, current, new) {
            Ok(previous) => previous,
            Err(actual) => actual,
        }
    }

    fn compare_exchange_weak(&self, current: u64, new: u64) -> (r: u64) {
        match self.compare_exchange_weak(current, new, Ordering::AcqRel, Ordering::Acquire) {
            Ok(previous) => previous,
            Err(actual) => actual,
        }
    }

    fn fetch_update<F: Fn(u64) -> u64>(&self, f: F) -> (r: u64) {
        let fr = &f;
        let lifted = |x: u64| -> (o: Option<u64>)
            ensures
                o matches Some(n) && fr.ensures((x,), n),
            { Some(fr(x)) };
        match u64_fetch_update(self, lifted) {
            Ok(previous) => previous,
            Err(previous) => previous,
        }
    }

    fn try_update<F: Fn(u64) -> Option<u64>>(&self, f: F) -> (r: Option<u64>) {
        match u64_fetch_update(self, f) {
            Ok(previous) => Some(previous),
            Err(_) => None,
        }
    }
}

impl AtomicNumberOps for AtomicU64 {
    open spec fn is_zero_value(value: u64) -> bool {
        value == 0
    }

    fn fetch_add(&self, delta: u64) -> u64 {
        self.fetch_add(delta, Ordering::Relaxed)
    }

    fn fetch_sub(&self, delta: u64) -> u64 {
        self.fetch_sub(delta, Ordering::Relaxed)
    }

    fn fetch_mul(&self, factor: u64) -> u64 {
        let step = |c: u64| -> (n: u64)
            ensures
                n == c.wrapping_mul(factor),
            { c.wrapping_mul(factor) };
        AtomicOps::fetch_update(self, step)
    }

    fn fetch_div(&self, divisor: u64) -> u64 {
        let step = |c: u64| -> (n: u64)
            ensures
                n == c / divisor,
            { c / divisor };
        AtomicOps::fetch_update(self, step)
    }
}

impl AtomicValue for u64 {
    type Primitive = AtomicU64;

    type Inner = AtomicU64;

    fn new_primitive(value: u64) -> AtomicU64 {
        AtomicU64::new(value)
    }

    open spec fn raw_atomic(primitive: AtomicU64) -> AtomicU64 {
        primitive
    }

    fn inner(primitive: &AtomicU64) -> (r: &AtomicU64) {
        primitive
    }
}

impl AtomicIntegerValue for u64 {
    fn fetch_inc(primitive: &AtomicU64) -> u64 {
        primitive.fetch_add(1, Ordering::Relaxed)
    }

    fn fetch_dec(primitive: &AtomicU64) -> u64 {
        primitive.fetch_sub(1, Ordering::Relaxed)
    }

    fn fetch_and(primitive: &AtomicU64, value: u64) -> u64 {
        primitive.fetch_and(value, Ordering::AcqRel)
    }

    fn fetch_or(primitive: &AtomicU64, value: u64) -> u64 {
        primitive.fetch_or(value, Ordering::AcqRel)
    }

    fn fetch_xor(primitive: &AtomicU64, value: u64) -> u64 {
        primitive.fetch_xor(value, Ordering::AcqRel)
    }

    fn fetch_not(primitive: &AtomicU64) -> u64 {
        primitive.fetch_xor(!0, Ordering::AcqRel)
    }

    fn fetch_accumulate<F: Fn(u64, u64) -> u64>(primitive: &AtomicU64, x: u64, f: F) -> (r: u64) {
        let fr = &f;
        let step = |c: u64| -> (n: u64)
            ensures
                fr.ensures((c, x), n),
            { fr(c, x) };
        AtomicOps::fetch_update(primitive, step)
    }

    fn fetch_max(primitive: &AtomicU64, value: u64) -> u64 {
        primitive.fetch_max(value, Ordering::AcqRel)
    }

    fn fetch_min(primitive: &AtomicU64, value: u64) -> u64 {
        primitive.fetch_min(value, Ordering::AcqRel)
    }
}

/// `std::sync::atomic::AtomicI64::compare_exchange` with `AcqRel` on success and
/// `Acquire` on failure. As the standard library documents it, a success
/// reports the expected value, and the strong form fails only when the stored
/// value differs from the expected one.
#[verifier::external_body]
pub(crate) fn i64_compare_exchange(atomic: &AtomicI64, current: i64, new: i64) -> (r: Result<i64, i64>)
    ensures
        r matches Ok(previous) ==> previous == current,
        r matches Err(actual) ==> actual != current,
{
    atomic.compare_exchange(current, new, Ordering::AcqRel, Ordering::Acquire)
}

/// `std::sync::atomic::AtomicI64::fetch_update` with `AcqRel` for the final store and
/// `Acquire` for loads. `Ok(previous)` means the closure returned `Some` for
/// `previous` and that value was replaced; `Err(previous)` means the closure
/// returned `None` for the value it saw last.
#[verifier::external_body]
pub(crate) fn i64_fetch_update<F: Fn(i64) -> Option<i64>>(atomic: &AtomicI64, f: F) -> (r: Result<i64, i64>)
    requires
        forall|x: i64| f.requires((x,)),
    ensures
        r matches Ok(previous) ==> exists|next: i64| f.ensures((previous,), Some(next)),
        r matches Err(previous) ==> f.ensures((previous,), None::<i64>),
{
    atomic.fetch_update(Ordering::AcqRel, Ordering::Acquire, f)
}

impl AtomicOps for AtomicI64 {
    type Value = i64;

    fn load(&self) -> i64 {
        self.load(Ordering::Acquire)
    }

    fn store(&self, value: i64) {
        self.store(value, Ordering::Release)
    }

    fn swap(&self, value: i64) -> i64 {
        self.swap(value, Ordering::AcqRel)
    }

    fn compare_set(&self, current: i64, new: i64) -> (r: Result<(), i64>) {
        match i64_compare_exchange(self, current, new) {
            Ok(_) => Ok(()),
            Err(actual) => Err(actual),
        }
    }

    fn compare_set_weak(&self, current: i64, new: i64) -> (r: Result<(), i64>) {
        match self.compare_exchange_weak(current, new, Ordering::AcqRel, Ordering::Acquire) {
            Ok(_) => Ok(()),
            Err(actual) => Err(actual),
        }
    }

    fn compare_exchange(&self, current: i64, new: i64) -> (r: i64) {
        match i64_compare_exchange(self, current, new) {
            Ok(previous) => previous,
            Err(actual) => actual,
        }
    }

    fn compare_exchange_weak(&self, current: i64, new: i64) -> (r: i64) {
        match self.compare_exchange_weak(current, new, Ordering::AcqRel, Ordering::Acquire) {
            Ok(previous) => previous,
            Err(actual) => actual,
        }
    }

    fn fetch_update<F: Fn(i64) -> i64>(&self, f: F) -> (r: i64) {
        let fr = &f;
        let lifted = |x: i64| -> (o: Option<i64>)
            ensures
                o matches Some(n) && fr.ensures((x,), n),
            { Some(fr(x)) };
        match i64_fetch_update(self, lifted) {
            Ok(previous) => previous,
            Err(previous) => previous,
        }
    }

    fn try_update<F: Fn(i64) -> Option<i64>>(&self, f: F) -> (r: Option<i64>) {
        match i64_fetch_update(self, f) {
            Ok(previous) => Some(previous),
            Err(_) => None,
        }
    }
}

impl AtomicNumberOps for AtomicI64 {
    open spec fn is_zero_value(value: i64) -> bool {
        value == 0
    }

    fn fetch_add(&self, delta: i64) -> i64 {
        self.fetch_add(delta, Ordering::Relaxed)
    }

    fn fetch_sub(&self, delta: i64) -> i64 {
        self.fetch_sub(delta, Ordering::Relaxed)
    }

    fn fetch_mul(&self, factor: i64) -> i64 {
        let step = |c: i64| -> (n: i64)
            ensures
                n == c.wrapping_mul(factor),
            { c.wrapping_mul(factor) };
        AtomicOps::fetch_update(self, step)
    }

    fn fetch_div(&self, divisor: i64) -> i64 {
        let step = |c: i64| -> (n: i64)
            ensures
                n == (match c.checked_div(divisor) {
                    Some(q) => q,
                    None => c,
                }),
            {
                match c.checked_div(divisor) {
                    Some(q) => q,
                    None => c,
                }
            };
        AtomicOps::fetch_update(self, step)
    }
}

impl AtomicValue for i64 {
    type Primitive = AtomicI64;

    type Inner = AtomicI64;

    fn new_primitive(value: i64) -> AtomicI64 {
        AtomicI64::new(value)
    }

    open spec fn raw_atomic(primitive: AtomicI64) -> AtomicI64 {
        primitive
    }

    fn inner(primitive: &AtomicI64) -> (r: &AtomicI64) {
        primitive
    }
}

impl AtomicIntegerValue for i64 {
    fn fetch_inc(primitive: &AtomicI64) -> i64 {
        primitive.fetch_add(1, Ordering::Relaxed)
    }

    fn fetch_dec(primitive: &AtomicI64) -> i64 {
        primitive.fetch_sub(1, Ordering::Relaxed)
    }

    fn fetch_and(primitive: &AtomicI64, value: i64) -> i64 {
        primitive.fetch_and(value, Ordering::AcqRel)
    }

    fn fetch_or(primitive: &AtomicI64, value: i64) -> i64 {
        primitive.fetch_or(value, Ordering::AcqRel)
    }

    fn fetch_xor(primitive: &AtomicI64, value: i64) -> i64 {
        primitive.fetch_xor(value, Ordering::AcqRel)
    }

    fn fetch_not(primitive: &AtomicI64) -> i64 {
        primitive.fetch_xor(!0, Ordering::AcqRel)
    }

    fn fetch_accumulate<F: Fn(i64, i64) -> i64>(primitive: &AtomicI64, x: i64, f: F) -> (r: i64) {
        let fr = &f;
        let step = |c: i64| -> (n: i64)
            ensures
                fr.ensures((c, x), n),
            { fr(c, x) };
        AtomicOps::fetch_update(primitive, step)
    }

    fn fetch_max(primitive: &AtomicI64, value: i64) -> i64 {
        primitive.fetch_max(value, Ordering::AcqRel)
    }

    fn fetch_min(primitive: &AtomicI64, value: i64) -> i64 {
        primitive.fetch_min(value, Ordering::AcqRel)
    }
}

/// `std::sync::atomic::AtomicUsize::compare_exchange` with `AcqRel` on success and
/// `Acquire` on failure. As the standard library documents it, a success
/// reports the expected value, and the strong form fails only when the stored
/// value differs from the expected one.
#[verifier::external_body]
pub(crate) fn usize_compare_exchange(atomic: &AtomicUsize, current: usize, new: usize) -> (r: Result<usize, usize>)
    ensures
        r matches Ok(previous) ==> previous == current,
        r matches Err(actual) ==> actual != current,
{
    atomic.compare_exchange(current, new, Ordering::AcqRel, Ordering::Acquire)
}

/// `std::sync::atomic::AtomicUsize::fetch_update` with `AcqRel` for the final store and
/// `Acquire` for loads. `Ok(previous)` means the closure returned `Some` for
/// `previous` and that value was replaced; `Err(previous)` means the closure
/// returned `None` for the value it saw last.
#[verifier::external_body]
pub(crate) fn usize_fetch_update<F: Fn(usize) -> Option<usize>>(atomic: &AtomicUsize, f: F) -> (r: Result<usize, usize>)
    requires
        forall|x: usize| f.requires((x,)),
    ensures
        r matches Ok(previous) ==> exists|next: usize| f.ensures((previous,), Some(next)),
        r matches Err(previous) ==> f.ensures((previous,), None::<usize>),
{
    atomic.fetch_update(Ordering::AcqRel, Ordering::Acquire, f)
}

impl AtomicOps for AtomicUsize {
    type Value = usize;

    fn load(&self) -> usize {
        self.load(Ordering::Acquire)
    }

    fn store(&self, value: usize) {
        self.store(value, Ordering::Release)
    }

    fn swap(&self, value: usize) -> usize {
        self.swap(value, Ordering::AcqRel)
    }

    fn compare_set(&self, current: usize, new: usize) -> (r: Result<(), usize>) {
        match usize_compare_exchange(self, current, new) {
            Ok(_) => Ok(()),
            Err(actual) => Err(actual),
        }
    }

    fn compare_set_weak(&self, current: usize, new: usize) -> (r: Result<(), usize>) {
        match self.compare_exchange_weak(current, new, Ordering::AcqRel, Ordering::Acquire) {
            Ok(_) => Ok(()),
            Err(actual) => Err(actual),
        }
    }

    fn compare_exchange(&self, current: usize, new: usize) -> (r: usize) {
        match usize_compare_exchange(self, current, new) {
            Ok(previous) => previous,
            Err(actual) => actual,
        }
    }

    fn compare_exchange_weak(&self, current: usize, new: usize) -> (r: usize) {
        match self.compare_exchange_weak(current, new, Ordering::AcqRel, Ordering::Acquire) {
            Ok(previous) => previous,
            Err(actual) => actual,
        }
    }

    fn fetch_update<F: Fn(usize) -> usize>(&self, f: F) -> (r: usize) {
        let fr = &f;
        let lifted = |x: usize| -> (o: Option<usize>)
            ensures
                o matches Some(n) && fr.ensures((x,), n),
            { Some(fr(x)) };
        match usize_fetch_update(self, lifted) {
            Ok(previous) => previous,
            Err(previous) => previous,
        }
    }

    fn try_update<F: Fn(usize) -> Option<usize>>(&self, f: F) -> (r: Option<usize>) {
        match usize_fetch_update(self, f) {
            Ok(previous) => Some(previous),
            Err(_) => None,
        }
    }
}

impl AtomicNumberOps for AtomicUsize {
    open spec fn is_zero_value(value: usize) -> bool {
        value == 0
    }

    fn fetch_add(&self, delta: usize) -> usize {
        self.fetch_add(delta, Ordering::Relaxed)
    }

    fn fetch_sub(&self, delta: usize) -> usize {
        self.fetch_sub(delta, Ordering::Relaxed)
    }

    fn fetch_mul(&self, factor: usize) -> usize {
        let step = |c: usize| -> (n: usize)
            ensures
                n == c.wrapping_mul(factor),
            { c.wrapping_mul(factor) };
        AtomicOps::fetch_update(self, step)
    }

    fn fetch_div(&self, divisor: usize) -> usize {
        let step = |c: usize| -> (n: usize)
            ensures
                n == c / divisor,
            { c / divisor };
        AtomicOps::fetch_update(self, step)
    }
}

impl AtomicValue for usize {
    type Primitive = AtomicUsize;

    type Inner = AtomicUsize;

    fn new_primitive(value: usize) -> AtomicUsize {
        AtomicUsize::new(value)
    }

    open spec fn raw_atomic(primitive: AtomicUsize) -> AtomicUsize {
        primitive
    }

    fn inner(primitive: &AtomicUsize) -> (r: &AtomicUsize) {
        primitive
    }
}

impl AtomicIntegerValue for usize {
    fn fetch_inc(primitive: &AtomicUsize) -> usize {
        primitive.fetch_add(1, Ordering::Relaxed)
    }

    fn fetch_dec(primitive: &AtomicUsize) -> usize {
        primitive.fetch_sub(1, Ordering::Relaxed)
    }

    fn fetch_and(primitive: &AtomicUsize, value: usize) -> usize {
        primitive.fetch_and(value, Ordering::AcqRel)
    }

    fn fetch_or(primitive: &AtomicUsize, value: usize) -> usize {
        primitive.fetch_or(value, Ordering::AcqRel)
    }

    fn fetch_xor(primitive: &AtomicUsize, value: usize) -> usize {
        primitive.fetch_xor(value, Ordering::AcqRel)
    }

    fn fetch_not(primitive: &AtomicUsize) -> usize {
        primitive.fetch_xor(!0, Ordering::AcqRel)
    }

    fn fetch_accumulate<F: Fn(usize, usize) -> usize>(primitive: &AtomicUsize, x: usize, f: F) -> (r: usize) {
        let fr = &f;
        let step = |c: usize| -> (n: usize)
            ensures
                fr.ensures((c, x), n),
            { fr(c, x) };
        AtomicOps::fetch_update(primitive, step)
    }

    fn fetch_max(primitive: &AtomicUsize, value: usize) -> usize {
        primitive.fetch_max(value, Ordering::AcqRel)
    }

    fn fetch_min(primitive: &AtomicUsize, value: usize) -> usize {
        primitive.fetch_min(value, Ordering::AcqRel)
    }
}

/// `std::sync::atomic::AtomicIsize::compare_exchange` with `AcqRel` on success and
/// `Acquire` on failure. As the standard library documents it, a success
/// reports the expected value, and the strong form fails only when the stored
/// value differs from the expected one.
#[verifier::external_body]
pub(crate) fn isize_compare_exchange(atomic: &AtomicIsize, current: isize, new: isize) -> (r: Result<isize, isize>)
    ensures
        r matches Ok(previous) ==> previous == current,
        r matches Err(actual) ==> actual != current,
{
    atomic.compare_exchange(current, new, Ordering::AcqRel, Ordering::Acquire)
}

/// `std::sync::atomic::AtomicIsize::fetch_update` with `AcqRel` for the final store and
/// `Acquire` for loads. `Ok(previous)` means the closure returned `Some` for
/// `previous` and that value was replaced; `Err(previous)` means the closure
/// returned `None` for the value it saw last.
#[verifier::external_body]
pub(crate) fn isize_fetch_update<F: Fn(isize) -> Option<isize>>(atomic: &AtomicIsize, f: F) -> (r: Result<isize, isize>)
    requires
        forall|x: isize| f.requires((x,)),
    ensures
        r matches Ok(previous) ==> exists|next: isize| f.ensures((previous,), Some(next)),
        r matches Err(previous) ==> f.ensures((previous,), None::<isize>),
{
    atomic.fetch_update(Ordering::AcqRel, Ordering::Acquire, f)
}

impl AtomicOps for AtomicIsize {
    type Value = isize;

    fn load(&self) -> isize {
        self.load(Ordering::Acquire)
    }

    fn store(&self, value: isize) {
        self.store(value, Ordering::Release)
    }

    fn swap(&self, value: isize) -> isize {
        self.swap(value, Ordering::AcqRel)
    }

    fn compare_set(&self, current: isize, new: isize) -> (r: Result<(), isize>) {
        match isize_compare_exchange(self, current, new) {
            Ok(_) => Ok(()),
            Err(actual) => Err(actual),
        }
    }

    fn compare_set_weak(&self, current: isize, new: isize) -> (r: Result<(), isize>) {
        match self.compare_exchange_weak(current, new, Ordering::AcqRel, Ordering::Acquire) {
            Ok(_) => Ok(()),
            Err(actual) => Err(actual),
        }
    }

    fn compare_exchange(&self, current: isize, new: isize) -> (r: isize) {
        match isize_compare_exchange(self, current, new) {
            Ok(previous) => previous,
            Err(actual) => actual,
        }
    }

    fn compare_exchange_weak(&self, current: isize, new: isize) -> (r: isize) {
        match self.compare_exchange_weak(current, new, Ordering::AcqRel, Ordering::Acquire) {
            Ok(previous) => previous,
            Err(actual) => actual,
        }
    }

    fn fetch_update<F: Fn(isize) -> isize>(&self, f: F) -> (r: isize) {
        let fr = &f;
        let lifted = |x: isize| -> (o: Option<isize>)
            ensures
                o matches Some(n) && fr.ensures((x,), n),
            { Some(fr(x)) };
        match isize_fetch_update(self, lifted) {
            Ok(previous) => previous,
            Err(previous) => previous,
        }
    }

    fn try_update<F: Fn(isize) -> Option<isize>>(&self, f: F) -> (r: Option<isize>) {
        match isize_fetch_update(self, f) {
            Ok(previous) => Some(previous),
            Err(_) => None,
        }
    }
}

impl AtomicNumberOps for AtomicIsize {
    open spec fn is_zero_value(value: isize) -> bool {
        value == 0
    }

    fn fetch_add(&self, delta: isize) -> isize {
        self.fetch_add(delta, Ordering::Relaxed)
    }

    fn fetch_sub(&self, delta: isize) -> isize {
        self.fetch_sub(delta, Ordering::Relaxed)
    }

    fn fetch_mul(&self, factor: isize) -> isize {
        let step = |c: isize| -> (n: isize)
            ensures
                n == c.wrapping_mul(factor),
            { c.wrapping_mul(factor) };
        AtomicOps::fetch_update(self, step)
    }

    fn fetch_div(&self, divisor: isize) -> isize {
        let step = |c: isize| -> (n: isize)
            ensures
                n == (match c.checked_div(divisor) {
                    Some(q) => q,
                    None => c,
                }),
            {
                match c.checked_div(divisor) {
                    Some(q) => q,
                    None => c,
                }
            };
        AtomicOps::fetch_update(self, step)
    }
}

impl AtomicValue for isize {
    type Primitive = AtomicIsize;

    type Inner = AtomicIsize;

    fn new_primitive(value: isize) -> AtomicIsize {
        AtomicIsize::new(value)
    }

    open spec fn raw_atomic(primitive: AtomicIsize) -> AtomicIsize {
        primitive
    }

    fn inner(primitive: &AtomicIsize) -> (r: &AtomicIsize) {
        primitive
    }
}

impl AtomicIntegerValue for isize {
    fn fetch_inc(primitive: &AtomicIsize) -> isize {
        primitive.fetch_add(1, Ordering::Relaxed)
    }

    fn fetch_dec(primitive: &AtomicIsize) -> isize {
        primitive.fetch_sub(1, Ordering::Relaxed)
    }

    fn fetch_and(primitive: &AtomicIsize, value: isize) -> isize {
        primitive.fetch_and(value, Ordering::AcqRel)
    }

    fn fetch_or(primitive: &AtomicIsize, value: isize) -> isize {
        primitive.fetch_or(value, Ordering::AcqRel)
    }

    fn fetch_xor(primitive: &AtomicIsize, value: isize) -> isize {
        primitive.fetch_xor(value, Ordering::AcqRel)
    }

    fn fetch_not(primitive: &AtomicIsize) -> isize {
        primitive.fetch_xor(!0, Ordering::AcqRel)
    }

    fn fetch_accumulate<F: Fn(isize, isize) -> isize>(primitive: &AtomicIsize, x: isize, f: F) -> (r: isize) {
        let fr = &f;
        let step = |c: isize| -> (n: isize)
            ensures
                fr.ensures((c, x), n),
            { fr(c, x) };
        AtomicOps::fetch_update(primitive, step)
    }

    fn fetch_max(primitive: &AtomicIsize, value: isize) -> isize {
        primitive.fetch_max(value, Ordering::AcqRel)
    }

    fn fetch_min(primitive: &AtomicIsize, value: isize) -> isize {
        primitive.fetch_min(value, Ordering::AcqRel)
    }
}

} // verus!

