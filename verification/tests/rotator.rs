use rustwire::http::ProxyManager;

#[test]
fn test_proxy_manager_new() {
    let proxies = vec![
        "http://localhost:8000".to_string(),
        "http://localhost:8001".to_string(),
    ];
    let manager = ProxyManager::new(proxies.clone());
    assert_eq!(manager.proxies(), &proxies);
    assert_eq!(manager.failure_count(), 0);
    assert_eq!(manager.cursor(), 0);
}

#[test]
fn test_proxy_manager_rotation() {
    let mut manager = ProxyManager::new(vec![
        "http://localhost:8000".to_string(),
        "http://localhost:8001".to_string(),
    ]);
    assert_eq!(manager.get_next().unwrap(), "http://localhost:8000");
    assert_eq!(manager.get_next().unwrap(), "http://localhost:8001");
    assert_eq!(manager.get_next().unwrap(), "http://localhost:8000"); // It should rotate back
}

#[test]
fn test_proxy_manager_mark_failure() {
    let mut manager = ProxyManager::new(vec!["http://localhost:8000".to_string()]);
    manager.mark_failure();
    assert_eq!(manager.failure_count(), 1);
}

#[test]
fn test_proxy_manager_failure_limit() {
    let mut manager = ProxyManager::new(vec!["http://localhost:8000".to_string()]);
    for _ in 0..4 {
        manager.mark_failure();
    }
    assert_eq!(manager.get_next(), None);
}

#[test]
fn test_rotation_full_cycle_in_insertion_order() {
    let pool = vec![
        "http://proxy-a".to_string(),
        "http://proxy-b".to_string(),
        "http://proxy-c".to_string(),
    ];
    let mut manager = ProxyManager::new(pool.clone());
    // Pool-size many calls hand out each entry exactly once, in order.
    for entry in &pool {
        assert_eq!(manager.get_next().as_ref(), Some(entry));
    }
    // The next call wraps back to the first entry.
    assert_eq!(manager.get_next().unwrap(), "http://proxy-a");
}

#[test]
fn test_failures_at_ceiling_still_hand_out() {
    let mut manager = ProxyManager::new(vec!["http://localhost:8000".to_string()]);
    for _ in 0..3 {
        manager.mark_failure();
    }
    assert_eq!(manager.get_next().unwrap(), "http://localhost:8000");
}

#[test]
fn test_circuit_stays_open() {
    let mut manager = ProxyManager::new(vec![
        "http://localhost:8000".to_string(),
        "http://localhost:8001".to_string(),
    ]);
    for _ in 0..4 {
        manager.mark_failure();
    }
    assert_eq!(manager.get_next(), None);
    assert_eq!(manager.get_next(), None);
    manager.mark_failure();
    assert_eq!(manager.get_next(), None);
    assert_eq!(manager.failure_count(), 5);
}
