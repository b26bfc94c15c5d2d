use atomic_websocket::retry::ExponentialBackoff;
use std::time::Duration;

#[test]
fn test_reset() {
    let mut backoff = ExponentialBackoff::new(10, 1, 3);
    backoff.count = 2;
    backoff.current = Duration::from_secs(1);

    backoff.reset();

    assert_eq!(backoff.count(), 0);
    assert_eq!(backoff.current, Duration::from_millis(10));
}

#[test]
fn test_exponential_backoff_count() {
    let mut backoff = ExponentialBackoff::new(10, 1, 3);

    assert_eq!(backoff.count(), 0);
    assert!(!backoff.is_exhausted());

    assert!(backoff.next_wait().is_some());
    assert_eq!(backoff.count(), 1);

    assert!(backoff.next_wait().is_some());
    assert_eq!(backoff.count(), 2);

    assert!(backoff.next_wait().is_some());
    assert_eq!(backoff.count(), 3);

    assert!(backoff.next_wait().is_none());
    assert!(backoff.is_exhausted());
}

#[test]
fn the_default_waits_double_up_to_a_second() {
    let mut backoff = ExponentialBackoff::default_retry();
    let mut waits = Vec::new();
    while let Some(wait) = backoff.next_wait() {
        waits.push(wait.as_millis());
    }
    assert_eq!(waits, vec![50, 100, 200, 400, 800]);
    assert_eq!(backoff.current, Duration::from_secs(1));
}

#[test]
fn a_first_wait_over_the_limit_is_kept_and_then_cut() {
    let mut backoff = ExponentialBackoff::new(3000, 1, 2);
    assert_eq!(backoff.next_wait(), Some(Duration::from_secs(3)));
    assert_eq!(backoff.next_wait(), Some(Duration::from_secs(1)));
    assert_eq!(backoff.next_wait(), None);
}

#[test]
fn the_longest_durations_do_not_overflow() {
    let mut backoff = ExponentialBackoff::new(u64::MAX, u64::MAX, 20);
    for _ in 0..20 {
        assert!(backoff.next_wait().is_some());
    }
    assert_eq!(backoff.current, Duration::from_secs(u64::MAX));
    assert_eq!(ExponentialBackoff::default().max_count, 5);
}
