use atomic_websocket::builder::{ClientOptionsBuilder, ServerOptionsBuilder};
use atomic_websocket::AtomicWebsocketType;

#[test]
fn test_client_options_builder_defaults() {
    let options = ClientOptionsBuilder::new().build();
    assert!(options.use_ping);
    assert_eq!(options.retry_seconds, 30);
    assert_eq!(options.connect_timeout_seconds, 3);
}

#[test]
fn test_client_options_builder_internal() {
    let options = ClientOptionsBuilder::internal()
        .use_ping(false)
        .retry_seconds(60)
        .build();

    assert!(!options.use_ping);
    assert_eq!(options.retry_seconds, 60);
    assert!(matches!(
        options.atomic_websocket_type,
        AtomicWebsocketType::Internal
    ));
}

#[test]
fn test_client_options_builder_external() {
    let options = ClientOptionsBuilder::external("example.com:9000")
        .connect_timeout(10)
        .build();

    assert_eq!(options.url, "example.com:9000");
    assert_eq!(options.connect_timeout_seconds, 10);
    assert!(matches!(
        options.atomic_websocket_type,
        AtomicWebsocketType::External
    ));
}

#[test]
fn test_server_options_builder() {
    let options = ServerOptionsBuilder::new()
        .use_ping(false)
        .proxy_ping(100)
        .build();

    assert!(!options.use_ping);
    assert_eq!(options.proxy_ping, 100);
}

#[test]
fn each_client_option_is_set_alone() {
    let options = ClientOptionsBuilder::default()
        .url("wss://example.com")
        .use_keep_ip(true)
        .connection_type(AtomicWebsocketType::External)
        .use_tls(false)
        .use_scan_discovery(true)
        .scan_timeout(7)
        .build();
    assert_eq!(options.url, "wss://example.com");
    assert!(options.use_keep_ip);
    assert_eq!(options.atomic_websocket_type, AtomicWebsocketType::External);
    assert!(!options.use_tls);
    assert!(options.use_scan_discovery);
    assert_eq!(options.scan_timeout_seconds, 7);
    assert_eq!(options.handler_buffer_size, 256);
    assert_eq!(options.status_buffer_size, 8);
    assert_eq!(options.per_connection_buffer_size, 8);
    assert_eq!(options.spillover_buffer_size, 1024);
    assert!(options.use_ping);
}

#[test]
fn the_connection_cap_can_be_set() {
    let options = ServerOptionsBuilder::default().max_connections(2).build();
    assert_eq!(options.max_connections, 2);
    assert!(options.use_ping);
}
