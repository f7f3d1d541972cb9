//! Admission control behaviour.

use redirective::limiter::RateLimiter;

#[test]
fn second_call_within_minute_is_refused() {
    let mut limiter = RateLimiter::new(1, 100);
    let id = "198.51.100.7".to_string();
    assert!(limiter.allow(&id, 1_000));
    assert!(!limiter.allow(&id, 1_030));
}

#[test]
fn call_after_minute_window_is_admitted_again() {
    let mut limiter = RateLimiter::new(1, 100);
    let id = "198.51.100.7".to_string();
    assert!(limiter.allow(&id, 1_000));
    assert!(!limiter.allow(&id, 1_059));
    assert!(limiter.allow(&id, 1_060));
}

#[test]
fn day_budget_refuses_the_101st_call() {
    let mut limiter = RateLimiter::new(1_000_000, 100);
    let id = "203.0.113.4".to_string();
    let mut t: u64 = 50_000;
    for _ in 0..100 {
        assert!(limiter.allow(&id, t));
        t += 1;
    }
    assert!(!limiter.allow(&id, t));
}

#[test]
fn day_budget_resets_after_a_day() {
    let mut limiter = RateLimiter::new(10, 2);
    let id = "203.0.113.4".to_string();
    assert!(limiter.allow(&id, 0));
    assert!(limiter.allow(&id, 1));
    assert!(!limiter.allow(&id, 2));
    assert!(limiter.allow(&id, 86_400));
}

#[test]
fn identities_are_limited_independently() {
    let mut limiter = RateLimiter::new(1, 100);
    let first = "198.51.100.7".to_string();
    let second = "198.51.100.8".to_string();
    assert!(limiter.allow(&first, 1_000));
    assert!(limiter.allow(&second, 1_000));
    assert!(!limiter.allow(&first, 1_001));
    assert!(!limiter.allow(&second, 1_001));
}

#[test]
fn refusal_consumes_no_budget() {
    let mut limiter = RateLimiter::new(1, 2);
    let id = "192.0.2.1".to_string();
    assert!(limiter.allow(&id, 0));
    for t in 1..50u64 {
        assert!(!limiter.allow(&id, t));
    }
    assert!(limiter.allow(&id, 60));
    assert!(!limiter.allow(&id, 120));
}
