use atomic_websocket::connection_state::ConnectionManager;
use atomic_websocket::scan_manager::{
    check_connection, ConnectionState, DialOutcome, ScanManager, WebSocketStatus,
    DIAL_TIMEOUT_SECONDS, SCAN_PERIOD_SECONDS,
};
use dashmap::DashMap;

fn create_test_states() -> DashMap<String, ConnectionState> {
    DashMap::new()
}

#[test]
fn test_connection_manager_start_connection() {
    let mut states = create_test_states();

    states.start_connection("192.168.1.1:9000");

    let state = states.get("192.168.1.1:9000").unwrap();
    assert!(state.is_connecting);
    assert_eq!(state.status, WebSocketStatus::Connecting);
    assert!(state.ws_stream.is_none());
}

#[test]
fn test_connection_manager_start_multiple_connections() {
    let mut states = create_test_states();

    states.start_connection("192.168.1.1:9000");
    states.start_connection("192.168.1.2:9000");
    states.start_connection("192.168.1.3:9000");

    assert_eq!(states.len(), 3);
    assert!(states.contains_key("192.168.1.1:9000"));
    assert!(states.contains_key("192.168.1.2:9000"));
    assert!(states.contains_key("192.168.1.3:9000"));
}

#[test]
fn test_connection_manager_end_connection_timeout() {
    let mut states = create_test_states();

    states.start_connection("192.168.1.1:9000");
    states.end_connection("192.168.1.1:9000", (WebSocketStatus::Timeout, None));

    let state = states.get("192.168.1.1:9000").unwrap();
    assert!(!state.is_connecting);
    assert_eq!(state.status, WebSocketStatus::Timeout);
    assert!(state.ws_stream.is_none());
}

#[test]
fn test_connection_manager_end_connection_refused() {
    let mut states = create_test_states();

    states.start_connection("192.168.1.1:9000");
    states.end_connection(
        "192.168.1.1:9000",
        (WebSocketStatus::ConnectionRefused, None),
    );

    let state = states.get("192.168.1.1:9000").unwrap();
    assert!(!state.is_connecting);
    assert_eq!(state.status, WebSocketStatus::ConnectionRefused);
}

#[test]
fn test_connection_manager_is_connected_empty() {
    let states = create_test_states();
    assert!(!states.is_connected());
}

#[test]
fn test_connection_manager_is_connected_no_stream() {
    let mut states = create_test_states();

    states.start_connection("192.168.1.1:9000");
    states.end_connection("192.168.1.1:9000", (WebSocketStatus::Connected, None));

    assert!(!states.is_connected());
}

#[test]
fn test_connection_manager_is_connected_not_connected_status() {
    let mut states = create_test_states();

    states.start_connection("192.168.1.1:9000");
    states.end_connection("192.168.1.1:9000", (WebSocketStatus::Timeout, None));

    assert!(!states.is_connected());
}

#[test]
fn test_connection_manager_get_connected_ip_empty() {
    let mut states = create_test_states();
    assert!(states.get_connected_ip().is_none());
}

#[test]
fn test_connection_manager_get_connected_ip_no_stream() {
    let mut states = create_test_states();

    states.start_connection("192.168.1.1:9000");
    states.end_connection("192.168.1.1:9000", (WebSocketStatus::Connected, None));

    assert!(states.get_connected_ip().is_none());
}

#[test]
fn test_websocket_status_equality() {
    assert_eq!(WebSocketStatus::Connecting, WebSocketStatus::Connecting);
    assert_eq!(WebSocketStatus::Connected, WebSocketStatus::Connected);
    assert_eq!(
        WebSocketStatus::ConnectionRefused,
        WebSocketStatus::ConnectionRefused
    );
    assert_eq!(WebSocketStatus::Timeout, WebSocketStatus::Timeout);

    assert_ne!(WebSocketStatus::Connecting, WebSocketStatus::Connected);
    assert_ne!(
        WebSocketStatus::Connected,
        WebSocketStatus::ConnectionRefused
    );
    assert_ne!(WebSocketStatus::ConnectionRefused, WebSocketStatus::Timeout);
}

#[test]
fn test_connection_state_initial() {
    let state = ConnectionState {
        status: WebSocketStatus::Connecting,
        is_connecting: true,
        ws_stream: None,
    };

    assert_eq!(state.status, WebSocketStatus::Connecting);
    assert!(state.is_connecting);
    assert!(state.ws_stream.is_none());
}

#[test]
fn a_connection_is_taken_once() {
    let mut states = create_test_states();
    states.start_connection("a");
    states.start_connection("b");
    states.end_connection("b", (WebSocketStatus::Connected, Some(5)));
    states.end_connection("never-begun", (WebSocketStatus::Connected, Some(6)));
    assert!(states.is_connected());
    assert_eq!(states.get_connected_ip(), Some(("b".to_string(), 5)));
    assert!(!states.is_connected());
    assert_eq!(states.get_connected_ip(), None);
    assert_eq!(states.len(), 2);
    assert_eq!(states.get("b").unwrap().status, WebSocketStatus::Connected);
}

#[test]
fn outcomes_become_states() {
    assert_eq!(
        check_connection(DialOutcome::Connected(3)),
        (WebSocketStatus::Connected, Some(3))
    );
    assert_eq!(
        check_connection(DialOutcome::Refused),
        (WebSocketStatus::ConnectionRefused, None)
    );
    assert_eq!(
        check_connection(DialOutcome::Failed),
        (WebSocketStatus::Timeout, None)
    );
    assert_eq!(
        check_connection(DialOutcome::TimedOut),
        (WebSocketStatus::Timeout, None)
    );
}

#[test]
fn the_whole_subnet_is_scanned() {
    let manager = ScanManager::new("192.168.7.41", "9000");
    assert_eq!(manager.max_concurrent(), 50);
    let targets = manager.scan_network();
    assert_eq!(targets.len(), 254);
    assert_eq!(targets[0], "ws://192.168.7.1:9000");
    assert_eq!(targets[9], "ws://192.168.7.10:9000");
    assert_eq!(targets[99], "ws://192.168.7.100:9000");
    assert_eq!(targets[253], "ws://192.168.7.254:9000");
    assert_eq!(manager.get_scannable_ips(), targets);
}

#[test]
fn an_address_is_not_tried_twice_at_a_time() {
    let mut manager = ScanManager::with_concurrency("10.0.0.1", "80", 3);
    assert_eq!(manager.max_concurrent(), 3);
    assert!(manager.is_connecting_allowed("ws://10.0.0.2:80"));
    assert!(manager.begin_attempt("ws://10.0.0.2:80"));
    assert!(!manager.is_connecting_allowed("ws://10.0.0.2:80"));
    assert!(manager.is_connecting_allowed("ws://10.0.0.3:80"));
    let targets = manager.scan_network();
    assert_eq!(targets.len(), 253);
    assert_eq!(targets[1], "ws://10.0.0.3:80");
    manager.end_attempt("ws://10.0.0.2:80", DialOutcome::Refused);
    assert_eq!(manager.scan_network().len(), 254);
    assert!(manager.take_connected().is_none());
}

#[test]
fn a_found_server_ends_the_scan() {
    let mut manager = ScanManager::new("10.0.0.1", "80");
    assert!(manager.begin_attempt("ws://10.0.0.2:80"));
    assert!(manager.begin_attempt("ws://10.0.0.3:80"));
    manager.end_attempt("ws://10.0.0.2:80", DialOutcome::Connected(8));
    assert!(manager.scan_network().is_empty());
    assert_eq!(manager.get_scannable_ips().len(), 253);
    assert!(!manager.is_connecting_allowed("ws://10.0.0.9:80"));
    assert!(!manager.begin_attempt("ws://10.0.0.9:80"));
    assert_eq!(
        manager.take_connected(),
        Some(("ws://10.0.0.2:80".to_string(), 8))
    );
    assert!(manager.take_connected().is_none());
    assert!(manager.scan_network().is_empty());
}

#[test]
fn a_scan_comes_round_every_two_seconds() {
    assert_eq!(SCAN_PERIOD_SECONDS, 2);
    assert_eq!(DIAL_TIMEOUT_SECONDS, 10);
}
