//! The checked transitions of [`crate::AtomicCount`] and
//! [`crate::AtomicSignedCount`], and the laws they obey.
//!
//! A count never wraps: an update whose result would leave the range of the
//! count's type is refused and the count keeps its value.

use vstd::prelude::*;

verus! {

/// The non-negative count after adding `delta` to `count`, or `None` when the
/// sum exceeds `usize::MAX`.
pub open spec fn count_after_add(count: usize, delta: usize) -> Option<usize> {
    if count + delta <= usize::MAX {
        Some((count + delta) as usize)
    } else {
        None
    }
}

/// The non-negative count after subtracting `delta` from `count`, or `None`
/// when the difference would be negative.
pub open spec fn count_after_sub(count: usize, delta: usize) -> Option<usize> {
    if delta <= count {
        Some((count - delta) as usize)
    } else {
        None
    }
}

/// The value an update that refuses to leave the range leaves behind: the
/// checked result when there is one, otherwise the unchanged count.
pub open spec fn count_or_unchanged(count: usize, next: Option<usize>) -> usize {
    match next {
        Some(n) => n,
        None => count,
    }
}

/// The signed count after adding `delta` to `count`, or `None` when the sum
/// leaves the range of `isize`.
pub open spec fn signed_after_add(count: isize, delta: isize) -> Option<isize> {
    if isize::MIN <= count + delta <= isize::MAX {
        Some((count + delta) as isize)
    } else {
        None
    }
}

/// The signed count after subtracting `delta` from `count`, or `None` when the
/// difference leaves the range of `isize`.
pub open spec fn signed_after_sub(count: isize, delta: isize) -> Option<isize> {
    if isize::MIN <= count - delta <= isize::MAX {
        Some((count - delta) as isize)
    } else {
        None
    }
}

/// The signed counterpart of [`count_or_unchanged`].
pub open spec fn signed_or_unchanged(count: isize, next: Option<isize>) -> isize {
    match next {
        Some(n) => n,
        None => count,
    }
}

/// Adding `delta` to a count and then subtracting it again gives back the
/// starting count, and the subtraction is never refused.
pub proof fn lemma_count_add_then_sub(count: usize, delta: usize)
    requires
        count_after_add(count, delta) is Some,
    ensures
        count_after_sub(count_after_add(count, delta).unwrap(), delta) == Some(count),
{
}

/// Subtracting `delta` from a count and then adding it again gives back the
/// starting count, and the addition is never refused.
pub proof fn lemma_count_sub_then_add(count: usize, delta: usize)
    requires
        count_after_sub(count, delta) is Some,
    ensures
        count_after_add(count_after_sub(count, delta).unwrap(), delta) == Some(count),
{
}

/// A count update is refused exactly when its result would leave the range:
/// an addition past `usize::MAX` and a subtraction below zero.
pub proof fn lemma_count_refusals(count: usize, delta: usize)
    ensures
        count_after_add(count, delta) is None <==> count + delta > usize::MAX,
        count_after_sub(count, delta) is None <==> count < delta,
        count_after_add(count, delta) matches Some(n) ==> n == count + delta,
        count_after_sub(count, delta) matches Some(n) ==> n == count - delta,
{
}

/// Adding or subtracting zero is never refused and leaves the count as it was.
pub proof fn lemma_count_zero_delta(count: usize)
    ensures
        count_after_add(count, 0) == Some(count),
        count_after_sub(count, 0) == Some(count),
{
}

/// A refused update leaves the count unchanged; an accepted one moves it to
/// the checked result.
pub proof fn lemma_count_outcome(count: usize, delta: usize)
    ensures
        count_or_unchanged(count, count_after_add(count, delta))
            == if count + delta <= usize::MAX { count + delta } else { count as int },
        count_or_unchanged(count, count_after_sub(count, delta))
            == if delta <= count { count - delta } else { count as int },
{
}

/// Adding `delta` to a signed count and then subtracting it again gives back
/// the starting count, and the subtraction is never refused.
pub proof fn lemma_signed_add_then_sub(count: isize, delta: isize)
    requires
        signed_after_add(count, delta) is Some,
    ensures
        signed_after_sub(signed_after_add(count, delta).unwrap(), delta) == Some(count),
{
}

/// Subtracting `delta` from a signed count and then adding it again gives
/// back the starting count, and the addition is never refused.
pub proof fn lemma_signed_sub_then_add(count: isize, delta: isize)
    requires
        signed_after_sub(count, delta) is Some,
    ensures
        signed_after_add(signed_after_sub(count, delta).unwrap(), delta) == Some(count),
{
}

/// A signed count may pass below zero: subtracting is refused only when the
/// result leaves the range of `isize`, and an increment is refused only at
/// `isize::MAX`, a decrement only at `isize::MIN`.
pub proof fn lemma_signed_refusals(count: isize, delta: isize)
    ensures
        signed_after_add(count, delta) is None <==> (count + delta < isize::MIN || count + delta > isize::MAX),
        signed_after_sub(count, delta) is None <==> (count - delta < isize::MIN || count - delta > isize::MAX),
        signed_after_add(count, 1) is None <==> count == isize::MAX,
        signed_after_sub(count, 1) is None <==> count == isize::MIN,
        signed_after_add(count, delta) matches Some(n) ==> n == count + delta,
        signed_after_sub(count, delta) matches Some(n) ==> n == count - delta,
{
}

/// The value a counter's `add` returns, given the outcome of its checked
/// compare-and-set loop: after `Ok(previous)` the new value, the checked
/// addition of `delta` to `previous`; after `Err(seen)` the value seen, which the
/// refused update left unchanged.
pub fn count_add_outcome(outcome: Result<usize, usize>, delta: usize) -> (r: usize)
    requires
        outcome matches Ok(previous) ==> count_after_add(previous, delta) is Some,
    ensures
        r == (match outcome {
            Ok(previous) => count_after_add(previous, delta).unwrap(),
            Err(seen) => seen,
        }),
{
    match outcome {
        Ok(previous) => previous + delta,
        Err(seen) => seen,
    }
}

/// The value a counter's `try_add` returns, given the outcome of its
/// checked compare-and-set loop: after `Ok(previous)` the checked sum of
/// `previous` and `delta`; after `Err(_)` nothing, as the update was refused.
pub fn count_try_add_outcome(outcome: Result<usize, usize>, delta: usize) -> (r: Option<usize>)
    requires
        outcome matches Ok(previous) ==> count_after_add(previous, delta) is Some,
    ensures
        r == (match outcome {
            Ok(previous) => count_after_add(previous, delta),
            Err(_) => None,
        }),
{
    match outcome {
        Ok(previous) => Some(previous + delta),
        Err(_) => None,
    }
}

/// The value a counter's `sub` returns, given the outcome of its checked
/// compare-and-set loop: after `Ok(previous)` the new value, the checked
/// subtraction of `delta` from `previous`; after `Err(seen)` the value seen, which the
/// refused update left unchanged.
pub fn count_sub_outcome(outcome: Result<usize, usize>, delta: usize) -> (r: usize)
    requires
        outcome matches Ok(previous) ==> count_after_sub(previous, delta) is Some,
    ensures
        r == (match outcome {
            Ok(previous) => count_after_sub(previous, delta).unwrap(),
            Err(seen) => seen,
        }),
{
    match outcome {
        Ok(previous) => previous - delta,
        Err(seen) => seen,
    }
}

/// The value a counter's `try_sub` returns, given the outcome of its
/// checked compare-and-set loop: after `Ok(previous)` the checked difference
/// `previous - delta`; after `Err(_)` nothing, as the update was refused.
pub fn count_try_sub_outcome(outcome: Result<usize, usize>, delta: usize) -> (r: Option<usize>)
    requires
        outcome matches Ok(previous) ==> count_after_sub(previous, delta) is Some,
    ensures
        r == (match outcome {
            Ok(previous) => count_after_sub(previous, delta),
            Err(_) => None,
        }),
{
    match outcome {
        Ok(previous) => Some(previous - delta),
        Err(_) => None,
    }
}

/// The value a signed counter's `add` returns, given the outcome of its checked
/// compare-and-set loop: after `Ok(previous)` the new value, the checked
/// addition of `delta` to `previous`; after `Err(seen)` the value seen, which the
/// refused update left unchanged.
pub fn signed_add_outcome(outcome: Result<isize, isize>, delta: isize) -> (r: isize)
    requires
        outcome matches Ok(previous) ==> signed_after_add(previous, delta) is Some,
    ensures
        r == (match outcome {
            Ok(previous) => signed_after_add(previous, delta).unwrap(),
            Err(seen) => seen,
        }),
{
    match outcome {
        Ok(previous) => previous + delta,
        Err(seen) => seen,
    }
}

/// The value a signed counter's `try_add` returns, given the outcome of its
/// checked compare-and-set loop: after `Ok(previous)` the checked sum of
/// `previous` and `delta`; after `Err(_)` nothing, as the update was refused.
pub fn signed_try_add_outcome(outcome: Result<isize, isize>, delta: isize) -> (r: Option<isize>)
    requires
        outcome matches Ok(previous) ==> signed_after_add(previous, delta) is Some,
    ensures
        r == (match outcome {
            Ok(previous) => signed_after_add(previous, delta),
            Err(_) => None,
        }),
{
    match outcome {
        Ok(previous) => Some(previous + delta),
        Err(_) => None,
    }
}

/// The value a signed counter's `sub` returns, given the outcome of its checked
/// compare-and-set loop: after `Ok(previous)` the new value, the checked
/// subtraction of `delta` from `previous`; after `Err(seen)` the value seen, which the
/// refused update left unchanged.
pub fn signed_sub_outcome(outcome: Result<isize, isize>, delta: isize) -> (r: isize)
    requires
        outcome matches Ok(previous) ==> signed_after_sub(previous, delta) is Some,
    ensures
        r == (match outcome {
            Ok(previous) => signed_after_sub(previous, delta).unwrap(),
            Err(seen) => seen,
        }),
{
    match outcome {
        Ok(previous) => previous - delta,
        Err(seen) => seen,
    }
}

/// The value a signed counter's `try_sub` returns, given the outcome of its
/// checked compare-and-set loop: after `Ok(previous)` the checked difference
/// `previous - delta`; after `Err(_)` nothing, as the update was refused.
pub fn signed_try_sub_outcome(outcome: Result<isize, isize>, delta: isize) -> (r: Option<isize>)
    requires
        outcome matches Ok(previous) ==> signed_after_sub(previous, delta) is Some,
    ensures
        r == (match outcome {
            Ok(previous) => signed_after_sub(previous, delta),
            Err(_) => None,
        }),
{
    match outcome {
        Ok(previous) => Some(previous - delta),
        Err(_) => None,
    }
}

/// Whether a counter value read from [`crate::AtomicCount`] is zero.
pub fn count_is_zero(value: usize) -> (r: bool)
    ensures
        r == (value == 0),
{
    value == 0
}

/// Whether a counter value read from [`crate::AtomicCount`] is greater than
/// zero.
pub fn count_is_positive(value: usize) -> (r: bool)
    ensures
        r == (value > 0),
{
    value > 0
}

/// Whether a counter value read from [`crate::AtomicSignedCount`] is zero.
pub fn signed_is_zero(value: isize) -> (r: bool)
    ensures
        r == (value == 0),
{
    value == 0
}

/// Whether a counter value read from [`crate::AtomicSignedCount`] is greater
/// than zero.
pub fn signed_is_positive(value: isize) -> (r: bool)
    ensures
        r == (value > 0),
{
    value > 0
}

/// Whether a counter value read from [`crate::AtomicSignedCount`] is less than
/// zero.
pub fn signed_is_negative(value: isize) -> (r: bool)
    ensures
        r == (value < 0),
{
    value < 0
}

/// For one value read from a non-negative counter, exactly one of
/// [`count_is_zero`] and [`count_is_positive`] holds.
pub proof fn lemma_count_sign_checks(value: usize)
    ensures
        (value == 0) != (value > 0),
{
}

/// For one value read from a signed counter, exactly one of
/// [`signed_is_negative`], [`signed_is_zero`] and [`signed_is_positive`] holds.
pub proof fn lemma_signed_sign_checks(value: isize)
    ensures
        (value < 0) || (value == 0) || (value > 0),
        !((value < 0) && (value == 0)),
        !((value < 0) && (value > 0)),
        !((value == 0) && (value > 0)),
{
}

} // verus!
