use gopro_ble::connection::{ConnectionManager, LinkAction, LinkEvent, LinkState, RetrievalError};

#[test]
fn disconnected_peripheral_connects_then_discovers() {
    let mut m = ConnectionManager::new(false);
    assert_eq!(m.state(), LinkState::Disconnected);
    assert_eq!(m.ensure_ready(), LinkAction::Connect);
    assert_eq!(m.state(), LinkState::Connecting);
    assert_eq!(m.ensure_ready(), LinkAction::AwaitConnect);
    m.record(LinkEvent::ConnectSucceeded);
    assert_eq!(m.ensure_ready(), LinkAction::DiscoverServices);
    m.record(LinkEvent::DiscoverySucceeded);
    assert_eq!(m.state(), LinkState::ServicesDiscovered);
    assert_eq!(m.ensure_ready(), LinkAction::Ready);
}

#[test]
fn connected_peripheral_skips_connect() {
    let mut m = ConnectionManager::new(true);
    assert_eq!(m.ensure_ready(), LinkAction::DiscoverServices);
    m.record(LinkEvent::DiscoverySucceeded);
    assert_eq!(m.ensure_ready(), LinkAction::Ready);
}

#[test]
fn ready_twice_issues_nothing() {
    let mut m = ConnectionManager::new(true);
    m.ensure_ready();
    m.record(LinkEvent::DiscoverySucceeded);
    assert_eq!(m.ensure_ready(), LinkAction::Ready);
    assert_eq!(m.ensure_ready(), LinkAction::Ready);
    assert_eq!(m.state(), LinkState::ServicesDiscovered);
}

#[test]
fn connect_failure_is_not_retried() {
    let mut m = ConnectionManager::new(false);
    assert_eq!(m.ensure_ready(), LinkAction::Connect);
    m.record(LinkEvent::ConnectFailed);
    assert_eq!(m.state(), LinkState::Failed(RetrievalError::ConnectionFailed));
    assert_eq!(m.ensure_ready(), LinkAction::Abort(RetrievalError::ConnectionFailed));
    m.record(LinkEvent::ConnectSucceeded);
    assert_eq!(m.ensure_ready(), LinkAction::Abort(RetrievalError::ConnectionFailed));
}

#[test]
fn discovery_failure_aborts() {
    let mut m = ConnectionManager::new(true);
    m.ensure_ready();
    m.record(LinkEvent::DiscoveryFailed);
    assert_eq!(m.ensure_ready(), LinkAction::Abort(RetrievalError::ServiceDiscoveryFailed));
}

#[test]
fn unexpected_event_is_ignored() {
    let mut m = ConnectionManager::new(false);
    m.record(LinkEvent::DiscoverySucceeded);
    assert_eq!(m.state(), LinkState::Disconnected);
}
