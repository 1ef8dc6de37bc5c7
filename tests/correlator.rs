use kaonic::ack_manager::AckManager;

#[test]
fn ack_resolves_waiter() {
    let mut manager = AckManager::new();
    let mut rx = manager.wait_for_ack(&"m1".to_string());
    assert!(rx.try_recv().is_err());
    assert!(manager.handle_ack(&"m1".to_string()));
    assert_eq!(rx.try_recv(), Ok(()));
}

#[test]
fn ack_without_waiter_is_noop() {
    let mut manager = AckManager::new();
    assert!(!manager.handle_ack(&"nobody".to_string()));
    let mut rx = manager.wait_for_ack(&"a".to_string());
    assert!(!manager.handle_ack(&"b".to_string()));
    assert!(rx.try_recv().is_err());
    assert!(manager.handle_ack(&"a".to_string()));
    assert!(!manager.handle_ack(&"a".to_string()));
}

#[test]
fn distinct_waiters_resolve_independently() {
    let mut manager = AckManager::new();
    let mut rx_a = manager.wait_for_ack(&"a".to_string());
    let mut rx_b = manager.wait_for_ack(&"b".to_string());
    assert!(manager.handle_ack(&"b".to_string()));
    assert_eq!(rx_b.try_recv(), Ok(()));
    assert!(rx_a.try_recv().is_err());
    assert!(manager.handle_ack(&"a".to_string()));
    assert_eq!(rx_a.try_recv(), Ok(()));
}

#[test]
fn second_registration_replaces_first() {
    let mut manager = AckManager::new();
    let mut first = manager.wait_for_ack(&"x".to_string());
    let mut second = manager.wait_for_ack(&"x".to_string());
    assert_eq!(
        first.try_recv(),
        Err(tokio::sync::oneshot::error::TryRecvError::Closed)
    );
    assert!(manager.handle_ack(&"x".to_string()));
    assert_eq!(second.try_recv(), Ok(()));
    assert!(!manager.handle_ack(&"x".to_string()));
}

#[test]
fn ack_after_receiver_gave_up_is_harmless() {
    let mut manager = AckManager::new();
    let rx = manager.wait_for_ack(&"late".to_string());
    drop(rx);
    assert!(manager.handle_ack(&"late".to_string()));
    assert!(!manager.handle_ack(&"late".to_string()));
}
