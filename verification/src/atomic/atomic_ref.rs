//! [`AtomicRef<T>`], an atomic shared reference built on `arc_swap`.

use vstd::prelude::*;
use std::sync::Arc;

use super::arc_support::{arc_clone, arc_ptr_eq};
use super::traits::Atomic;

verus! {

/// The `arc_swap::ArcSwap<T>` behind an [`AtomicRef<T>`].
///
/// The swap cell is a private field whose contents stay hidden from the
/// specifications (its default strategy parameter names a type private to
/// `arc_swap`); only the functions below touch it.
#[verifier::external_body]
#[verifier::reject_recursive_types(T)]
#[derive(Debug)]
struct ArcSwapCell<T> {
    swap: arc_swap::ArcSwap<T>,
}

/// `arc_swap::ArcSwap::from`: a cell holding `value`.
#[verifier::external_body]
fn cell_new<T>(value: Arc<T>) -> ArcSwapCell<T> {
    ArcSwapCell { swap: arc_swap::ArcSwap::from(value) }
}

/// `arc_swap::ArcSwapAny::load_full`: a handle to the value stored at the
/// moment of the call, which depends on other threads.
#[verifier::external_body]
fn cell_load_full<T>(cell: &ArcSwapCell<T>) -> Arc<T> {
    cell.swap.load_full()
}

/// `arc_swap::ArcSwapAny::store`: replaces the stored value.
#[verifier::external_body]
fn cell_store<T>(cell: &ArcSwapCell<T>, value: Arc<T>) {
    cell.swap.store(value)
}

/// `arc_swap::ArcSwapAny::swap`: replaces the stored value and returns the
/// value it replaced.
#[verifier::external_body]
fn cell_swap<T>(cell: &ArcSwapCell<T>, value: Arc<T>) -> Arc<T> {
    cell.swap.swap(value)
}

/// `arc_swap::ArcSwapAny::compare_and_swap`, with the returned guard turned
/// into a handle: stores `new` if the stored handle points to the same
/// allocation as `current`, and returns the handle stored before. The swap
/// happened exactly when that handle points to `current`'s allocation, which
/// the caller tests with `Arc::ptr_eq`.
#[verifier::external_body]
fn cell_compare_and_swap<T>(cell: &ArcSwapCell<T>, current: &Arc<T>, new: Arc<T>) -> Arc<T> {
    arc_swap::Guard::into_inner(cell.swap.compare_and_swap(current, new))
}

/// `arc_swap::ArcSwapAny::rcu`: replaces the stored handle with `f(handle)`
/// by a compare-and-swap loop and returns the handle it replaced, which is
/// the one `f` was applied to last.
#[verifier::external_body]
fn cell_rcu<T, F: Fn(&Arc<T>) -> Arc<T>>(cell: &ArcSwapCell<T>, f: F) -> (r: Arc<T>)
    requires
        forall|x: Arc<T>| f.requires((&x,)),
    ensures
        exists|n: Arc<T>| f.ensures((&r,), n),
{
    cell.swap.rcu(f)
}

/// An atomic reference to a shared value, with sequentially consistent
/// updates provided by `arc_swap`.
///
/// Another thread may replace the stored handle at any moment, so a load is
/// not tied to an earlier store; the contracts state what holds whatever the
/// interleaving. Handles are compared by allocation, not by value.
#[verifier::reject_recursive_types(T)]
#[derive(Debug)]
pub struct AtomicRef<T> {
    value: ArcSwapCell<T>,
}

impl<T> AtomicRef<T> {
    /// Creates an atomic reference holding `value`.
    pub fn new(value: Arc<T>) -> Self {
        AtomicRef { value: cell_new(value) }
    }

    /// Creates an atomic reference holding a new handle to `value`.
    pub fn from_value(value: T) -> Self {
        Self::new(Arc::new(value))
    }

    /// A handle to the current value.
    pub fn load(&self) -> Arc<T> {
        cell_load_full(&self.value)
    }

    /// Stores `value`.
    pub fn store(&self, value: Arc<T>) {
        cell_store(&self.value, value)
    }

    /// Stores `value` and returns the handle it replaced.
    pub fn swap(&self, value: Arc<T>) -> Arc<T> {
        cell_swap(&self.value, value)
    }

    /// Stores `new` if the stored handle points to the same allocation as
    /// `current`; otherwise returns `Err` with the stored handle.
    pub fn compare_set(&self, current: &Arc<T>, new: Arc<T>) -> (r: Result<(), Arc<T>>) {
        let previous = cell_compare_and_swap(&self.value, current, new);
        if arc_ptr_eq(&previous, current) {
            Ok(())
        } else {
            Err(previous)
        }
    }

    /// Same as [`compare_set`](Self::compare_set): the backend never fails
    /// spuriously.
    pub fn compare_set_weak(&self, current: &Arc<T>, new: Arc<T>) -> (r: Result<(), Arc<T>>) {
        self.compare_set(current, new)
    }

    /// Compare-and-exchange returning the handle stored before the operation;
    /// the exchange happened exactly when it points to `current`'s allocation.
    pub fn compare_and_exchange(&self, current: &Arc<T>, new: Arc<T>) -> Arc<T> {
        cell_compare_and_swap(&self.value, current, new)
    }

    /// Same as [`compare_and_exchange`](Self::compare_and_exchange).
    pub fn compare_and_exchange_weak(&self, current: &Arc<T>, new: Arc<T>) -> Arc<T> {
        self.compare_and_exchange(current, new)
    }

    /// Replaces the stored handle with `f(handle)` and returns the handle `f`
    /// was applied to. `f` may run more than once under contention.
    pub fn fetch_update<F: Fn(&Arc<T>) -> Arc<T>>(&self, f: F) -> (r: Arc<T>)
        requires
            forall|x: Arc<T>| f.requires((&x,)),
        ensures
            exists|n: Arc<T>| f.ensures((&r,), n),
    {
        cell_rcu(&self.value, f)
    }
}

impl<T: std::fmt::Display> AtomicRef<T> {
    /// The current value as its `Display` implementation writes it.
    pub fn to_string(&self) -> (s: String)
        ensures
            exists|v: T| vstd::string::to_string_from_display_ensures::<T>(&v, s),
    {
        let handle = self.load();
        let value: &T = &*handle;
        value.to_string()
    }
}

impl<T> Atomic for AtomicRef<T> {
    type Value = Arc<T>;

    fn load(&self) -> Arc<T> {
        AtomicRef::load(self)
    }

    fn store(&self, value: Arc<T>) {
        AtomicRef::store(self, value)
    }

    fn swap(&self, value: Arc<T>) -> Arc<T> {
        AtomicRef::swap(self, value)
    }

    fn compare_set(&self, current: Arc<T>, new: Arc<T>) -> (r: Result<(), Arc<T>>) {
        AtomicRef::compare_set(self, &current, new)
    }

    fn compare_set_weak(&self, current: Arc<T>, new: Arc<T>) -> (r: Result<(), Arc<T>>) {
        AtomicRef::compare_set_weak(self, &current, new)
    }

    fn compare_exchange(&self, current: Arc<T>, new: Arc<T>) -> Arc<T> {
        AtomicRef::compare_and_exchange(self, &current, new)
    }

    fn compare_exchange_weak(&self, current: Arc<T>, new: Arc<T>) -> Arc<T> {
        AtomicRef::compare_and_exchange_weak(self, &current, new)
    }

    /// Applies `f` to a new handle to the stored value; returns the handle `f`
    /// was last applied to, whose result was stored.
    fn fetch_update<F: Fn(Arc<T>) -> Arc<T>>(&self, f: F) -> Arc<T> {
        let fr = &f;
        let lifted = |x: &Arc<T>| -> (o: Arc<T>)
            requires
                forall|y: Arc<T>| fr.requires((y,)),
            ensures
                fr.ensures((*x,), o),
            { fr(arc_clone(x)) };
        cell_rcu(&self.value, lifted)
    }
}

impl<T> Clone for AtomicRef<T> {
    /// A new atomic reference holding a handle to the value currently stored.
    fn clone(&self) -> Self {
        Self::new(self.load())
    }
}

} // verus!
