use arc_weak::refcount::{
    exceeds_limit, is_exclusive, is_last, upgrade_attempt, upgrade_retry, Attempt, MAX_REFCOUNT,
};

#[test]
fn limit_is_half_the_largest_word() {
    assert_eq!(MAX_REFCOUNT, usize::MAX / 2);
}

#[test]
fn increment_stops_the_process_above_the_limit_only() {
    assert!(!exceeds_limit(0));
    assert!(!exceeds_limit(1));
    assert!(!exceeds_limit(usize::MAX / 2));
    assert!(exceeds_limit(usize::MAX / 2 + 1));
    assert!(exceeds_limit(usize::MAX));
}

#[test]
fn decrement_that_found_one_was_the_last() {
    assert!(is_last(1));
    assert!(!is_last(2));
    assert!(!is_last(0));
    assert!(!is_last(usize::MAX));
}

#[test]
fn exclusive_means_one_handle_in_all() {
    assert!(is_exclusive(1));
    assert!(!is_exclusive(2));
    assert!(!is_exclusive(0));
}

#[test]
fn upgrade_gives_up_at_zero() {
    assert_eq!(upgrade_attempt(0), Attempt::Absent);
}

#[test]
fn upgrade_exchanges_a_count_for_its_successor() {
    assert_eq!(upgrade_attempt(1), Attempt::Exchange { current: 1, new: 2 });
    assert_eq!(upgrade_attempt(41), Attempt::Exchange { current: 41, new: 42 });
    assert_eq!(
        upgrade_attempt(usize::MAX - 1),
        Attempt::Exchange { current: usize::MAX - 1, new: usize::MAX }
    );
}

#[test]
fn upgrade_tries_again_with_the_count_it_found() {
    assert_eq!(upgrade_retry(Ok(3)), None);
    assert_eq!(upgrade_retry(Err(3)), Some(3));
    assert_eq!(upgrade_retry(Err(0)), Some(0));
}
