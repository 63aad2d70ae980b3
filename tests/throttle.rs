use gleif_rs::api::throttler::{ThrottleAction, ThrottlerState};

#[test]
fn throttle_quota_two_window_five_seconds() {
    let mut t = ThrottlerState::new(2, 5000);
    assert_eq!(t.acquire(0), ThrottleAction::Proceed);
    assert_eq!(t.acquire(10), ThrottleAction::Proceed);
    assert_eq!(t.acquire(20), ThrottleAction::Wait(4980));
    assert_eq!(t.request_count(), 2);
    // After waiting, the caller asks again and opens a new window.
    assert_eq!(t.acquire(5000), ThrottleAction::Proceed);
    assert_eq!(t.window_start(), Some(5000));
    assert_eq!(t.request_count(), 1);
    // A fourth acquisition a second later is still within quota.
    assert_eq!(t.acquire(6000), ThrottleAction::Proceed);
    assert_eq!(t.acquire(6001), ThrottleAction::Wait(3999));
}

#[test]
fn throttle_first_acquisition_opens_window() {
    let mut t = ThrottlerState::new(1, 1000);
    assert_eq!(t.window_start(), None);
    assert_eq!(t.acquire(123), ThrottleAction::Proceed);
    assert_eq!(t.window_start(), Some(123));
    assert_eq!(t.acquire(123), ThrottleAction::Wait(1000));
    assert_eq!(t.acquire(1122), ThrottleAction::Wait(1));
    assert_eq!(t.acquire(1123), ThrottleAction::Proceed);
}

#[test]
fn throttle_zero_quota_admits_one_per_window() {
    let mut t = ThrottlerState::new(0, 100);
    assert_eq!(t.acquire(0), ThrottleAction::Proceed);
    assert_eq!(t.acquire(50), ThrottleAction::Wait(50));
    assert_eq!(t.acquire(100), ThrottleAction::Proceed);
}

#[test]
fn throttle_zero_interval_never_waits() {
    let mut t = ThrottlerState::new(1, 0);
    for now in 0..5 {
        assert_eq!(t.acquire(now), ThrottleAction::Proceed);
    }
}
