use qubit_atomic::atomic::count_rules::{count_add_outcome, count_sub_outcome, count_try_add_outcome, count_try_sub_outcome, count_is_positive, count_is_zero};
use qubit_atomic::AtomicCount;

#[test]
fn atomic_count_tests_test_new_get() {
    let counter = AtomicCount::new(42);
    assert_eq!(counter.get(), 42);
}

#[test]
fn atomic_count_tests_test_zero() {
    let counter = AtomicCount::zero();
    assert_eq!(counter.get(), 0);
    assert!(counter.is_zero());
}

#[test]
fn atomic_count_tests_test_default() {
    let counter = AtomicCount::default();
    assert_eq!(counter.get(), 0);
}

#[test]
fn atomic_count_tests_test_from() {
    let counter = AtomicCount::from(9);
    assert_eq!(counter.get(), 9);
}

#[test]
fn test_is_zero() {
    let counter = AtomicCount::new(0);
    assert!(counter.is_zero());

    counter.inc();
    assert!(!counter.is_zero());
}

#[test]
fn test_is_positive() {
    let counter = AtomicCount::new(0);
    assert!(!counter.is_positive());

    counter.inc();
    assert!(counter.is_positive());
}

#[test]
fn atomic_count_tests_test_inc_returns_new_value() {
    let counter = AtomicCount::zero();

    assert_eq!(counter.inc(), 1);
    assert_eq!(counter.inc(), 2);
    assert_eq!(counter.get(), 2);
}

#[test]
fn test_add_returns_new_value() {
    let counter = AtomicCount::new(2);

    assert_eq!(counter.add(3), 5);
    assert_eq!(counter.get(), 5);
}

#[test]
fn test_add_zero_returns_current_value() {
    let counter = AtomicCount::new(2);

    assert_eq!(counter.add(0), 2);
    assert_eq!(counter.get(), 2);
}

#[test]
fn atomic_count_tests_test_try_add_success() {
    let counter = AtomicCount::new(2);

    assert_eq!(counter.try_add(3), Some(5));
    assert_eq!(counter.get(), 5);
}

#[test]
fn atomic_count_tests_test_try_add_overflow_keeps_value() {
    let counter = AtomicCount::new(1);

    assert_eq!(counter.try_add(usize::MAX), None);
    assert_eq!(counter.get(), 1);
}

#[test]
fn atomic_count_tests_test_dec_returns_new_value() {
    let counter = AtomicCount::new(2);

    assert_eq!(counter.dec(), 1);
    assert_eq!(counter.dec(), 0);
    assert!(counter.is_zero());
}

#[test]
fn test_try_dec_success() {
    let counter = AtomicCount::new(1);

    assert_eq!(counter.try_dec(), Some(0));
    assert_eq!(counter.get(), 0);
}

#[test]
fn test_try_dec_underflow_keeps_value() {
    let counter = AtomicCount::zero();

    assert_eq!(counter.try_dec(), None);
    assert_eq!(counter.get(), 0);
}

#[test]
fn test_sub_returns_new_value() {
    let counter = AtomicCount::new(5);

    assert_eq!(counter.sub(3), 2);
    assert_eq!(counter.get(), 2);
}

#[test]
fn test_sub_zero_returns_current_value() {
    let counter = AtomicCount::new(5);

    assert_eq!(counter.sub(0), 5);
    assert_eq!(counter.get(), 5);
}

#[test]
fn atomic_count_tests_test_try_sub_success() {
    let counter = AtomicCount::new(5);

    assert_eq!(counter.try_sub(3), Some(2));
    assert_eq!(counter.get(), 2);
}

#[test]
fn atomic_count_tests_test_try_sub_underflow_keeps_value() {
    let counter = AtomicCount::new(2);

    assert_eq!(counter.try_sub(3), None);
    assert_eq!(counter.get(), 2);
}

#[test]
fn count_refused_increment_at_max_keeps_value() {
    let counter = AtomicCount::new(usize::MAX);

    assert_eq!(counter.inc(), usize::MAX);
    assert_eq!(counter.get(), usize::MAX);
}

#[test]
fn count_refused_decrement_at_zero_keeps_value() {
    let counter = AtomicCount::zero();

    assert_eq!(counter.dec(), 0);
    assert_eq!(counter.sub(3), 0);
    assert_eq!(counter.get(), 0);
}

#[test]
fn count_add_then_sub_restores_value() {
    let counter = AtomicCount::new(7);

    assert_eq!(counter.try_add(5), Some(12));
    assert_eq!(counter.try_sub(5), Some(7));
    assert_eq!(counter.get(), 7);
}

#[test]
fn count_try_add_up_to_max_is_accepted() {
    let counter = AtomicCount::new(usize::MAX - 3);

    assert_eq!(counter.try_add(3), Some(usize::MAX));
    assert_eq!(counter.try_add(1), None);
    assert_eq!(counter.get(), usize::MAX);
}

#[test]
fn atomic_count_tests_test_debug() {
    let counter = AtomicCount::new(42);

    assert_eq!(format!("{counter:?}"), "AtomicCount { value: 42 }");
}

#[test]
fn atomic_count_tests_test_display() {
    let counter = AtomicCount::new(42);

    assert_eq!(counter.to_string(), "42");
}

#[test]
fn count_outcome_functions() {
    assert_eq!(count_add_outcome(Ok(40), 2), 42);
    assert_eq!(count_add_outcome(Err(usize::MAX), 1), usize::MAX);
    assert_eq!(count_try_add_outcome(Ok(40), 2), Some(42));
    assert_eq!(count_try_add_outcome(Err(usize::MAX), 1), None);
    assert_eq!(count_sub_outcome(Ok(5), 3), 2);
    assert_eq!(count_sub_outcome(Err(2), 3), 2);
    assert_eq!(count_try_sub_outcome(Ok(5), 5), Some(0));
    assert_eq!(count_try_sub_outcome(Err(2), 3), None);
}

#[test]
fn count_refused_updates_keep_the_value() {
    let counter = AtomicCount::new(usize::MAX);
    assert_eq!(counter.inc(), usize::MAX);
    assert_eq!(counter.get(), usize::MAX);
    let counter = AtomicCount::new(2);
    assert_eq!(counter.sub(3), 2);
    assert_eq!(counter.get(), 2);
    let counter = AtomicCount::zero();
    assert_eq!(counter.dec(), 0);
    assert_eq!(counter.try_dec(), None);
}

#[test]
fn count_sign_check_functions() {
    assert!(count_is_zero(0));
    assert!(!count_is_zero(3));
    assert!(count_is_positive(3));
    assert!(!count_is_positive(0));
    let counter = AtomicCount::zero();
    assert!(counter.is_zero() && !counter.is_positive());
    counter.inc();
    assert!(!counter.is_zero() && counter.is_positive());
}
