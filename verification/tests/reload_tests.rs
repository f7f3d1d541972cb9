//! Reload coordination: single flight, all-or-nothing publication, and
//! outcome counters.

use redirective::cache::RouterCache;
use redirective::reload::{FetchOutcome, ReloadCoordinator, ReloadOutcome};

#[test]
fn successful_reload_publishes_whole_snapshot() {
    let mut cache = RouterCache::new(vec![("foo".to_string(), "http://initial".to_string())]);
    let mut coord = ReloadCoordinator::new();
    assert!(coord.try_begin());
    let outcome = coord.complete(
        &mut cache,
        FetchOutcome::Success("bar: http://updated\n".to_string()),
    );
    assert_eq!(outcome, ReloadOutcome::Published(1));
    assert_eq!(cache.lookup("foo"), None);
    assert_eq!(cache.lookup("bar"), Some("http://updated".to_string()));
    assert_eq!(coord.success_total(), 1);
    assert_eq!(coord.fail_total(), 0);
}

#[test]
fn fetch_failure_leaves_table_unchanged() {
    let mut cache = RouterCache::new(vec![("a".to_string(), "http://x".to_string())]);
    let mut coord = ReloadCoordinator::new();
    assert!(coord.try_begin());
    let outcome = coord.complete(&mut cache, FetchOutcome::Failure);
    assert_eq!(outcome, ReloadOutcome::FetchFailed);
    assert_eq!(cache.lookup("a"), Some("http://x".to_string()));
    assert_eq!(coord.success_total(), 0);
    assert_eq!(coord.fail_total(), 1);
}

#[test]
fn parse_failure_leaves_table_unchanged() {
    let mut cache = RouterCache::new(vec![("a".to_string(), "http://x".to_string())]);
    let mut coord = ReloadCoordinator::new();
    assert!(coord.try_begin());
    let outcome = coord.complete(&mut cache, FetchOutcome::Success("- a\n- list\n".to_string()));
    assert_eq!(outcome, ReloadOutcome::ParseFailed);
    assert_eq!(cache.lookup("a"), Some("http://x".to_string()));
    assert_eq!(coord.fail_total(), 1);
}

#[test]
fn invalid_entry_rejects_whole_candidate() {
    let mut cache = RouterCache::new(vec![("a".to_string(), "http://x".to_string())]);
    let mut coord = ReloadCoordinator::new();
    assert!(coord.try_begin());
    let outcome = coord.complete(
        &mut cache,
        FetchOutcome::Success("good: http://fine\nbad: ' '\n".to_string()),
    );
    match outcome {
        ReloadOutcome::ValidationFailed(code) => assert_eq!(code, "bad"),
        other => panic!("expected a validation failure, got {:?}", other),
    }
    assert_eq!(cache.lookup("a"), Some("http://x".to_string()));
    assert_eq!(cache.lookup("good"), None);
    assert_eq!(cache.lookup("bad"), None);
    assert_eq!(coord.success_total(), 0);
    assert_eq!(coord.fail_total(), 1);
}

#[test]
fn second_concurrent_trigger_is_refused() {
    let mut coord = ReloadCoordinator::new();
    assert!(coord.try_begin());
    assert!(!coord.try_begin());
    let mut cache = RouterCache::new(Vec::new());
    let _ = coord.complete(&mut cache, FetchOutcome::Failure);
    assert!(coord.try_begin());
}

#[test]
fn each_attempt_counts_exactly_once() {
    let mut cache = RouterCache::new(Vec::new());
    let mut coord = ReloadCoordinator::new();
    assert!(coord.try_begin());
    let _ = coord.complete(&mut cache, FetchOutcome::Success("a: http://x\n".to_string()));
    assert!(coord.try_begin());
    let _ = coord.complete(&mut cache, FetchOutcome::Failure);
    assert!(coord.try_begin());
    let _ = coord.complete(&mut cache, FetchOutcome::Success("b: http://y\n".to_string()));
    assert_eq!(coord.success_total(), 2);
    assert_eq!(coord.fail_total(), 1);
}
