//! Atomic value wrappers, counters and reference helpers.

pub mod arc_atomic;
pub mod arc_atomic_count;
pub mod arc_atomic_ref;
pub mod arc_atomic_signed_count;
mod arc_support;
pub mod atomic;
pub mod atomic_bool;
pub mod atomic_count;
pub mod atomic_integer_value;
pub mod atomic_number_ops;
pub mod atomic_ops;
pub mod atomic_ref;
pub mod atomic_signed_count;
pub mod atomic_value;
pub mod count_rules;
mod int_backend;
pub mod traits;
mod wide_backend;

pub use arc_atomic::ArcAtomic;
pub use arc_atomic_count::ArcAtomicCount;
pub use arc_atomic_ref::ArcAtomicRef;
pub use arc_atomic_signed_count::ArcAtomicSignedCount;
pub use atomic::Atomic;
pub use atomic_bool::AtomicBool;
pub use atomic_count::AtomicCount;
pub use atomic_ref::AtomicRef;
pub use atomic_signed_count::AtomicSignedCount;
