//! The few operations on `std::sync::Arc` that the shared-owner wrappers and
//! the atomic reference need, which Verus has no specification for.

use vstd::prelude::*;
use std::sync::Arc;

verus! {

/// `std::sync::Arc::clone`: a new handle to the same allocation, so it holds
/// the same value.
#[verifier::external_body]
pub(crate) fn arc_clone<T>(arc: &Arc<T>) -> (r: Arc<T>)
    ensures
        r == *arc,
{
    Arc::clone(arc)
}

/// `std::sync::Arc::strong_count`: the number of strong handles to the
/// allocation at the moment of the call. Other threads may clone or drop
/// handles at any time, but the handle passed in is itself a strong handle
/// that lives through the call, so the number is at least one.
#[verifier::external_body]
pub(crate) fn arc_strong_count<T>(arc: &Arc<T>) -> (r: usize)
    ensures
        r >= 1,
{
    Arc::strong_count(arc)
}

/// `std::sync::Arc::ptr_eq`: whether both handles point to the same
/// allocation. Handles to one allocation hold the same value; handles to two
/// allocations may hold equal values too, so a `false` claims nothing.
#[verifier::external_body]
pub(crate) fn arc_ptr_eq<T>(a: &Arc<T>, b: &Arc<T>) -> (r: bool)
    ensures
        r ==> *a == *b,
{
    Arc::ptr_eq(a, b)
}

} // verus!
