use atomic_websocket::common::make_ping_message;
use atomic_websocket::connection_store::{ConnectionStore, NativeDbConnectionStore};
use atomic_websocket::get_internal_websocket::TryConnectGuard;
use atomic_websocket::internal_client::{
    begin_scan, check_health, finish_scan, get_internal_connect,
    get_internal_connect_without_store, get_outer_connect, ClientOptions, ConnectPlan, Health,
    HealthAction, PingLoop, ScanDecision,
};
use atomic_websocket::schema::ServerConnectInfo;
use atomic_websocket::server_sender::{SenderStatus, ServerSender};
use atomic_websocket::types::InMemoryStorage;
use atomic_websocket::{AtomicWebsocket, AtomicWebsocketType};
use tokio::sync::mpsc;
use tokio::sync::mpsc::Receiver;

#[test]
fn internal_client_test_client_options_default() {
    let options = ClientOptions::default();
    assert!(options.use_ping);
    assert_eq!(options.url, "");
    assert_eq!(options.retry_seconds, 30);
    assert!(!options.use_keep_ip);
    assert_eq!(options.connect_timeout_seconds, 3);
    assert!(matches!(
        options.atomic_websocket_type,
        AtomicWebsocketType::Internal
    ));
}

#[test]
fn test_client_options_default_with_tls() {
    let options = ClientOptions::default();
    assert!(options.use_tls);
}

#[test]
fn internal_client_test_client_options_clone() {
    let options = ClientOptions {
        use_ping: false,
        url: "ws://example.com:9000".to_string(),
        retry_seconds: 60,
        use_keep_ip: true,
        connect_timeout_seconds: 10,
        atomic_websocket_type: AtomicWebsocketType::External,
        use_tls: false,
        ..Default::default()
    };

    let cloned = options.clone();
    assert!(!cloned.use_ping);
    assert_eq!(cloned.url, "ws://example.com:9000");
    assert_eq!(cloned.retry_seconds, 60);
    assert!(cloned.use_keep_ip);
    assert_eq!(cloned.connect_timeout_seconds, 10);
    assert!(matches!(
        cloned.atomic_websocket_type,
        AtomicWebsocketType::External
    ));
}

#[test]
fn test_client_options_custom_values() {
    let options = ClientOptions {
        use_ping: false,
        url: "192.168.1.100:9000".to_string(),
        retry_seconds: 5,
        use_keep_ip: true,
        connect_timeout_seconds: 1,
        atomic_websocket_type: AtomicWebsocketType::Internal,
        use_tls: true,
        ..Default::default()
    };

    assert!(!options.use_ping);
    assert_eq!(options.url, "192.168.1.100:9000");
    assert_eq!(options.retry_seconds, 5);
    assert!(options.use_keep_ip);
    assert_eq!(options.connect_timeout_seconds, 1);
}

#[test]
fn reconnection_test_test_client_options_default() {
    let options = ClientOptions::default();
    assert!(options.use_ping);
    assert_eq!(options.url, "");
    assert_eq!(options.retry_seconds, 30);
    assert!(!options.use_keep_ip);
    assert_eq!(options.connect_timeout_seconds, 3);
}

#[test]
fn reconnection_test_test_client_options_clone() {
    let options = ClientOptions {
        use_ping: false,
        url: "test-url".to_string(),
        retry_seconds: 15,
        use_keep_ip: true,
        connect_timeout_seconds: 5,
        atomic_websocket_type: AtomicWebsocketType::External,
        use_tls: true,
        ..Default::default()
    };

    let cloned = options.clone();
    assert!(!cloned.use_ping);
    assert_eq!(cloned.url, "test-url");
    assert_eq!(cloned.retry_seconds, 15);
    assert!(cloned.use_keep_ip);
}

fn store() -> NativeDbConnectionStore {
    NativeDbConnectionStore::new(InMemoryStorage::new())
}

fn sender() -> (ServerSender, Receiver<SenderStatus>) {
    let mut sender = ServerSender::new("".to_string(), ClientOptions::default());
    let statuses = sender.get_status_receiver().unwrap();
    (sender, statuses)
}

fn reported(statuses: &mut Receiver<SenderStatus>) -> Vec<SenderStatus> {
    let mut seen = Vec::new();
    while let Ok(status) = statuses.try_recv() {
        seen.push(status);
    }
    seen
}

fn port(port: &str) -> Option<ServerConnectInfo<'_>> {
    Some(ServerConnectInfo {
        server_ip: "",
        port,
    })
}

#[test]
fn no_auto_scan_when_discovery_disabled() {
    let (mut sender, mut statuses) = sender();
    let mut store = store();
    let options = ClientOptions::default();
    let plan = get_internal_connect(port("9000"), &mut store, &mut sender, &options, 1000);
    assert!(matches!(plan, ConnectPlan::Done));
    assert_eq!(reported(&mut statuses), vec![SenderStatus::Disconnected]);
    assert!(!sender.is_scanning);
    assert_eq!(
        store.get_server_connect_info(),
        Some(("".to_string(), "9000".to_string()))
    );
}

#[test]
fn direct_fixed_ip_connects() {
    let (mut sender, mut statuses) = sender();
    let mut store = store();
    store.set_server_connect_info("ws://127.0.0.1:9000", "9000");
    let options = ClientOptions::default();
    let plan = get_internal_connect(port("9000"), &mut store, &mut sender, &options, 1000);
    assert!(matches!(plan, ConnectPlan::Dial(url) if url == "ws://127.0.0.1:9000"));
    assert_eq!(reported(&mut statuses), vec![SenderStatus::Connecting]);
}

#[test]
fn a_bare_stored_address_is_completed() {
    let (mut sender, _statuses) = sender();
    let mut store = store();
    store.set_server_connect_info("192.168.0.9", "16250");
    let options = ClientOptions::default();
    let plan = get_internal_connect(None, &mut store, &mut sender, &options, 1000);
    assert!(matches!(plan, ConnectPlan::Dial(url) if url == "ws://192.168.0.9:16250"));
    let plan = get_internal_connect(port("80"), &mut store, &mut sender, &options, 1000);
    assert!(matches!(plan, ConnectPlan::Dial(url) if url == "ws://192.168.0.9:80"));
}

#[test]
fn scan_discovery_is_single_flight() {
    let (mut sender, mut statuses) = sender();
    let mut store = store();
    let mut options = ClientOptions::default();
    options.use_scan_discovery = true;
    options.scan_timeout_seconds = 0;

    let plan = get_internal_connect(port("16250"), &mut store, &mut sender, &options, 1000);
    assert!(matches!(plan, ConnectPlan::Scan(port, 1) if port == "16250"));
    assert!(sender.is_scanning);

    let plan = get_internal_connect(port("16250"), &mut store, &mut sender, &options, 1000);
    assert!(matches!(plan, ConnectPlan::Done));
    assert!(sender.is_scanning);
    assert!(reported(&mut statuses).is_empty());

    assert!(begin_scan(&mut sender, "192.168.0.4"));
    assert_eq!(reported(&mut statuses), vec![SenderStatus::Connecting]);
    assert!(finish_scan(&mut sender, false).is_none());
    assert!(!sender.is_scanning);
    assert_eq!(reported(&mut statuses), vec![SenderStatus::Disconnected]);
}

#[test]
fn a_scan_needs_a_local_address() {
    let (mut sender, mut statuses) = sender();
    sender.is_scanning = true;
    assert!(!begin_scan(&mut sender, ""));
    assert!(!sender.is_scanning);
    assert_eq!(reported(&mut statuses), vec![SenderStatus::Disconnected]);
}

#[test]
fn a_found_server_is_not_connected_to_twice() {
    let (mut sender, _statuses) = sender();
    sender.is_scanning = true;
    let guard = finish_scan(&mut sender, true).expect("claim");
    assert!(sender.is_try_connect);
    sender.is_scanning = true;
    assert!(finish_scan(&mut sender, true).is_none());
    guard.release(&mut sender);
}

#[test]
fn nothing_known_means_disconnected() {
    let (mut sender, mut statuses) = sender();
    let mut store = store();
    let options = ClientOptions::default();
    let plan = get_internal_connect(None, &mut store, &mut sender, &options, 1000);
    assert!(matches!(plan, ConnectPlan::Done));
    assert_eq!(reported(&mut statuses), vec![SenderStatus::Disconnected]);
    assert!(store.get_server_connect_info().is_none());
}

#[test]
fn test_is_try_connect_prevents_duplicate_during_active_connection() {
    let (mut sender, mut statuses) = sender();
    let mut store = store();
    store.set_server_connect_info("a", "1");
    let mut options = ClientOptions::default();
    options.url = "u".to_string();
    let guard = TryConnectGuard::try_acquire(&mut sender).unwrap();
    assert!(matches!(
        get_internal_connect(port("9"), &mut store, &mut sender, &options, 1000),
        ConnectPlan::Done
    ));
    assert!(matches!(
        get_internal_connect_without_store(&mut sender, &options, 1000),
        ConnectPlan::Done
    ));
    assert!(!get_outer_connect(&mut sender, &options, 1000));
    assert!(reported(&mut statuses).is_empty());
    guard.release(&mut sender);
    assert!(get_outer_connect(&mut sender, &options, 1000));
    assert_eq!(reported(&mut statuses), vec![SenderStatus::Connecting]);
}

#[test]
fn a_good_connection_is_kept() {
    let (mut sender, mut statuses) = sender();
    let mut store = store();
    let options = ClientOptions::default();
    sender.server_ip = "ws://a:1".to_string();
    sender.server_received_times = 1000;
    assert!(matches!(
        get_internal_connect(port("9"), &mut store, &mut sender, &options, 1059),
        ConnectPlan::Done
    ));
    assert!(!get_outer_connect(&mut sender, &options, 1059));
    assert!(matches!(
        get_internal_connect_without_store(&mut sender, &options, 1059),
        ConnectPlan::Done
    ));
    assert_eq!(
        reported(&mut statuses),
        vec![
            SenderStatus::Connected,
            SenderStatus::Connected,
            SenderStatus::Connected
        ]
    );
    assert!(store.get_server_connect_info().is_none());
    assert!(!get_outer_connect(&mut sender, &options, 1060));
    assert_eq!(reported(&mut statuses), vec![SenderStatus::Disconnected]);
}

#[test]
fn without_a_store_the_usual_port_is_scanned() {
    let (mut sender, _statuses) = sender();
    let mut options = ClientOptions::default();
    assert!(matches!(
        get_internal_connect_without_store(&mut sender, &options, 1000),
        ConnectPlan::Done
    ));
    options.use_scan_discovery = true;
    assert!(matches!(
        get_internal_connect_without_store(&mut sender, &options, 1000),
        ConnectPlan::Scan(port, 60) if port == "9000"
    ));
}

#[test]
fn health_follows_the_silence() {
    assert_eq!(check_health(0, 30, i64::MAX), Health::Good);
    assert_eq!(check_health(1000, 30, 1060), Health::Good);
    assert_eq!(check_health(1000, 30, 1061), Health::Quiet);
    assert_eq!(check_health(1000, 30, 1120), Health::Quiet);
    assert_eq!(check_health(1000, 30, 1121), Health::Dead);
    assert_eq!(check_health(i64::MAX, u64::MAX, i64::MAX), Health::Good);
}

#[test]
fn test_no_false_disconnect_when_never_connected_internal() {
    let (mut sender, mut statuses) = sender();
    let mut store = store();
    let options = ClientOptions::default();
    let mut ping_loop = PingLoop::new(&options);
    for now in [0i64, 1_000_000, i64::MAX] {
        assert!(matches!(
            ping_loop.internal_ping_loop_cheker(&mut sender, &mut store, &options, now),
            HealthAction::Rest
        ));
        assert!(matches!(
            ping_loop.outer_ping_loop_cheker(&mut sender, &store, &options, now),
            HealthAction::Rest
        ));
    }
    assert!(reported(&mut statuses).is_empty());
    assert_eq!(ping_loop.interval(), 30);
}

#[test]
fn a_dead_connection_is_made_again_ever_more_slowly() {
    let (mut sender, mut statuses) = sender();
    let mut store = store();
    store.set_server_connect_info("ws://a:1", "1");
    let mut options = ClientOptions::default();
    options.retry_seconds = 2;
    let (tx, _rx) = mpsc::channel(1);
    sender.add(tx, "ws://a:1");
    sender.write_received_times_at(100);
    let mut ping_loop = PingLoop::new(&options);
    assert_eq!(ping_loop.interval(), 2);
    match ping_loop.internal_ping_loop_cheker(&mut sender, &mut store, &options, 109) {
        HealthAction::Reconnect(farewell) => assert!(farewell.is_some()),
        _ => panic!("the connection is dead"),
    }
    assert_eq!(
        reported(&mut statuses),
        vec![SenderStatus::Disconnected, SenderStatus::Reconnecting]
    );
    assert!(sender.server_ip.is_empty());
    assert_eq!(
        store.get_server_connect_info(),
        Some(("".to_string(), "1".to_string()))
    );
    assert_eq!(sender.metrics.snapshot().reconnections, 1);
    let mut waits = vec![ping_loop.interval()];
    for _ in 0..3 {
        assert!(matches!(
            ping_loop.internal_ping_loop_cheker(&mut sender, &mut store, &options, 200),
            HealthAction::Reconnect(None)
        ));
        waits.push(ping_loop.interval());
    }
    assert_eq!(waits, vec![4, 8, 16, 16]);
    sender.write_received_times_at(300);
    assert!(matches!(
        ping_loop.internal_ping_loop_cheker(&mut sender, &mut store, &options, 301),
        HealthAction::Rest
    ));
    assert_eq!(ping_loop.interval(), 2);
}

#[test]
fn a_kept_address_survives_the_reconnection() {
    let (mut sender, mut statuses) = sender();
    let mut store = store();
    store.set_server_connect_info("ws://a:1", "1");
    let mut options = ClientOptions::default();
    options.use_keep_ip = true;
    options.retry_seconds = 0;
    sender.server_ip = "ws://a:1".to_string();
    sender.write_received_times_at(100);
    let mut ping_loop = PingLoop::new(&options);
    assert!(matches!(
        ping_loop.internal_ping_loop_cheker(&mut sender, &mut store, &options, 105),
        HealthAction::Reconnect(None)
    ));
    assert_eq!(sender.server_ip, "ws://a:1");
    assert_eq!(
        store.get_server_connect_info(),
        Some(("ws://a:1".to_string(), "1".to_string()))
    );
    assert_eq!(reported(&mut statuses).len(), 2);
}

#[test]
fn an_outer_reconnection_leaves_the_store_alone() {
    let (mut sender, mut statuses) = sender();
    let mut store = store();
    store.set_server_connect_info("ws://a:1", "1");
    let options = ClientOptions::default();
    sender.server_ip = "wss://a".to_string();
    sender.write_received_times_at(100);
    let mut ping_loop = PingLoop::new(&options);
    assert!(matches!(
        ping_loop.outer_ping_loop_cheker(&mut sender, &store, &options, 221),
        HealthAction::Reconnect(None)
    ));
    assert!(sender.server_ip.is_empty());
    assert_eq!(
        store.get_server_connect_info(),
        Some(("ws://a:1".to_string(), "1".to_string()))
    );
    assert_eq!(
        reported(&mut statuses),
        vec![SenderStatus::Disconnected, SenderStatus::Reconnecting]
    );
    assert_eq!(ping_loop.interval(), 60);
}

#[test]
fn a_quiet_server_is_pinged() {
    let (mut sender, mut statuses) = sender();
    let mut store = store();
    store.ensure_client_id();
    let mut options = ClientOptions::default();
    sender.write_received_times_at(100);
    let mut ping_loop = PingLoop::new(&options);
    match ping_loop.internal_ping_loop_cheker(&mut sender, &mut store, &options, 161) {
        HealthAction::Ping(ping) => assert_eq!(
            ping.into_data(),
            make_ping_message(&store.get_client_id()).into_data()
        ),
        _ => panic!("the server is quiet"),
    }
    assert!(matches!(
        ping_loop.outer_ping_loop_cheker(&mut sender, &store, &options, 161),
        HealthAction::Ping(_)
    ));
    options.use_ping = false;
    assert!(matches!(
        ping_loop.outer_ping_loop_cheker(&mut sender, &store, &options, 161),
        HealthAction::Rest
    ));
    assert!(reported(&mut statuses).is_empty());
}

#[test]
fn a_client_is_made_with_its_kind_and_an_identifier() {
    let mut store = store();
    let mut options = ClientOptions::default();
    options.url = "wss://example.com".to_string();
    options.atomic_websocket_type = AtomicWebsocketType::Internal;
    let client = AtomicWebsocket::get_outer_client(&mut store, options.clone());
    assert_eq!(
        client.options.atomic_websocket_type,
        AtomicWebsocketType::External
    );
    assert_eq!(client.server_sender.server_ip, "wss://example.com");
    assert!(client.server_sender.registered);
    let id = store.get_client_id();
    assert_eq!(id.len(), 21);

    let (mut given, _statuses) = sender();
    given.server_received_times = 77;
    let mut client =
        AtomicWebsocket::get_internal_client_with_server_sender(&mut store, options.clone(), given);
    assert_eq!(store.get_client_id(), id);
    assert_eq!(client.server_sender.server_ip, "wss://example.com");
    assert_eq!(client.server_sender.server_received_times, 77);
    assert_eq!(
        client.server_sender.options.atomic_websocket_type,
        AtomicWebsocketType::Internal
    );
    assert!(client.get_status_receiver().is_none());
    assert!(client.get_handle_message_receiver().is_some());
    assert_eq!(client.metrics().snapshot().reconnections, 0);

    let (given, _statuses) = sender();
    let client =
        AtomicWebsocket::get_outer_client_with_server_sender(&mut store, options.clone(), given);
    assert_eq!(
        client.options.atomic_websocket_type,
        AtomicWebsocketType::External
    );
    let client = AtomicWebsocket::get_internal_client(&mut store, options);
    assert_eq!(
        client.options.atomic_websocket_type,
        AtomicWebsocketType::Internal
    );
}

#[test]
fn a_client_decides_on_an_explicit_scan() {
    let mut store = store();
    let mut client = AtomicWebsocket::get_internal_client(&mut store, ClientOptions::default());
    assert_eq!(client.scan_and_connect(1000), ScanDecision::Scan(60));
    assert_eq!(client.scan_and_connect(1000), ScanDecision::Refused);
    client.server_sender.is_scanning = false;
    client.server_sender.server_ip = "ws://a:1".to_string();
    client.server_sender.server_received_times = 999;
    assert_eq!(client.scan_and_connect(1000), ScanDecision::AlreadyConnected);
    client.server_sender.is_try_connect = true;
    assert_eq!(client.scan_and_connect(1000), ScanDecision::Refused);
    assert!(matches!(
        client.get_internal_connect(None, &mut store, 1000),
        ConnectPlan::Done
    ));
    assert!(!client.get_outer_connect(1000));
}

#[test]
fn a_stopped_client_lets_go_of_its_connection() {
    let mut store = store();
    let mut client = AtomicWebsocket::get_internal_client(&mut store, ClientOptions::default());
    let (tx, _rx) = mpsc::channel(1);
    client.server_sender.add(tx, "ws://a:1");
    assert!(client.disconnect().is_some());
    assert!(client.cancelled);
    assert!(client.server_sender.server_ip.is_empty());
    assert!(client.disconnect().is_none());
}
