use std::time::{Duration, Instant};

use backend::clock::{at_least_millis_passed_since, is_due};

#[test]
fn rotator_at_least_millis_passed_since() {
    let now = Instant::now();
    assert!(at_least_millis_passed_since(None, 1000));
    assert!(at_least_millis_passed_since(
        Some(now - Duration::from_millis(2000)),
        1000
    ));
    assert!(!at_least_millis_passed_since(
        Some(now - Duration::from_millis(500)),
        1000
    ));
}

#[test]
fn due_is_decided_by_the_elapsed_time() {
    assert!(is_due(None, u128::MAX));
    assert!(is_due(Some(1000), 1000));
    assert!(!is_due(Some(999), 1000));
    assert!(is_due(Some(0), 0));
}
