//! Behaviour of the swappable routing table.

use redirective::cache::RouterCache;

#[test]
fn lookup_existing() {
    let m = vec![("a".to_string(), "1".to_string())];
    let cache = RouterCache::new(m);
    assert_eq!(cache.lookup("a"), Some("1".to_string()));
}

#[test]
fn lookup_missing() {
    let m = Vec::new();
    let cache = RouterCache::new(m);
    assert_eq!(cache.lookup("missing"), None);
}

#[test]
fn swap_updates() {
    let m1 = vec![("a".to_string(), "1".to_string())];
    let mut cache = RouterCache::new(m1);
    assert_eq!(cache.lookup("a"), Some("1".to_string()));
    let m2 = vec![("b".to_string(), "2".to_string())];
    cache.swap(m2);
    assert_eq!(cache.lookup("a"), None);
    assert_eq!(cache.lookup("b"), Some("2".to_string()));
}

#[test]
fn lookup_correctness() {
    let mut cache = RouterCache::new(vec![("a".to_string(), "http://x".to_string())]);
    assert_eq!(cache.lookup("a"), Some("http://x".to_string()));
    assert_eq!(cache.lookup("missing"), None);
    cache.swap(vec![("b".to_string(), "http://y".to_string())]);
    assert_eq!(cache.lookup("a"), None);
    assert_eq!(cache.lookup("b"), Some("http://y".to_string()));
}

#[test]
fn lookup_is_case_sensitive_and_exact() {
    let cache = RouterCache::new(vec![("Code".to_string(), "http://x".to_string())]);
    assert_eq!(cache.lookup("code"), None);
    assert_eq!(cache.lookup("Code/"), None);
    assert_eq!(cache.lookup("Code"), Some("http://x".to_string()));
}

#[test]
fn later_pair_overrides_earlier() {
    let cache = RouterCache::new(vec![
        ("a".to_string(), "http://old".to_string()),
        ("a".to_string(), "http://new".to_string()),
    ]);
    assert_eq!(cache.lookup("a"), Some("http://new".to_string()));
}
