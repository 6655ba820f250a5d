use rustwire::http::{ProxyFetch, ProxyManager};

// Drives the fetch decision core the way a transport loop would when
// every GET through a proxy fails, and returns how many attempts were
// handed out before the fetch gave up.
fn attempts_when_every_get_fails(pool: Vec<String>, max_attempts: usize) -> usize {
    let mut manager = ProxyManager::new(pool);
    let mut fetch = ProxyFetch::new(max_attempts);
    let mut handed_out: usize = 0;
    while let Some(_proxy) = fetch.next_attempt(&mut manager) {
        handed_out += 1;
        fetch.record_failure(&mut manager);
    }
    handed_out
}

#[test]
fn test_fetch_exhausts_exactly_max_attempts() {
    // One always-failing proxy, three attempts allowed: exactly three
    // attempts are made, then the fetch reports exhaustion.
    let pool = vec!["http://invalid-proxy".to_string()];
    assert_eq!(attempts_when_every_get_fails(pool, 3), 3);
}

#[test]
fn test_fetch_stops_early_when_circuit_opens() {
    // With a high attempt ceiling, the rotator's circuit opens after
    // four failures and cuts the fetch short.
    let pool = vec!["http://invalid-proxy".to_string()];
    assert_eq!(attempts_when_every_get_fails(pool, 10), 4);
}

#[test]
fn test_fetch_rotates_through_the_pool() {
    let pool = vec![
        "http://proxy-a".to_string(),
        "http://proxy-b".to_string(),
    ];
    let mut manager = ProxyManager::new(pool);
    let mut fetch = ProxyFetch::new(3);
    assert_eq!(fetch.next_attempt(&mut manager).unwrap(), "http://proxy-a");
    fetch.record_failure(&mut manager);
    assert_eq!(fetch.next_attempt(&mut manager).unwrap(), "http://proxy-b");
    fetch.record_failure(&mut manager);
    assert_eq!(fetch.next_attempt(&mut manager).unwrap(), "http://proxy-a");
    fetch.record_failure(&mut manager);
    // Attempts exhausted: the fetch is over, the rotator untouched.
    assert_eq!(fetch.next_attempt(&mut manager), None);
    assert_eq!(fetch.attempts(), 3);
    assert_eq!(fetch.max_attempts(), 3);
    assert_eq!(manager.failure_count(), 3);
}

#[test]
fn test_fetch_with_zero_attempts_hands_out_nothing() {
    let pool = vec!["http://proxy-a".to_string()];
    assert_eq!(attempts_when_every_get_fails(pool, 0), 0);
}
