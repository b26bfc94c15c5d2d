use atomic_websocket::metrics::Metrics;

#[test]
fn test_metrics_default_zero() {
    let m = Metrics::new();
    let s = m.snapshot();
    assert_eq!(s.messages_sent, 0);
    assert_eq!(s.messages_received, 0);
    assert_eq!(s.messages_dropped, 0);
    assert_eq!(s.connections_total, 0);
    assert_eq!(s.connections_active, 0);
    assert_eq!(s.reconnections, 0);
    assert_eq!(s.send_errors, 0);
}

#[test]
fn test_metrics_increment() {
    let mut m = Metrics::new();
    m.inc_messages_sent();
    m.inc_messages_sent();
    m.inc_messages_received();
    m.inc_connections_total();
    m.inc_connections_active();
    m.inc_send_errors();
    m.inc_reconnections();
    m.inc_messages_dropped();

    let s = m.snapshot();
    assert_eq!(s.messages_sent, 2);
    assert_eq!(s.messages_received, 1);
    assert_eq!(s.messages_dropped, 1);
    assert_eq!(s.connections_total, 1);
    assert_eq!(s.connections_active, 1);
    assert_eq!(s.reconnections, 1);
    assert_eq!(s.send_errors, 1);
}

#[test]
fn test_metrics_dec_connections_active() {
    let mut m = Metrics::new();
    m.inc_connections_active();
    m.inc_connections_active();
    m.dec_connections_active();

    assert_eq!(m.snapshot().connections_active, 1);
}

#[test]
fn test_snapshot_clone() {
    let mut m = Metrics::new();
    m.inc_messages_sent();
    let s1 = m.snapshot();
    let s2 = s1.clone();
    assert_eq!(s1, s2);
}

#[test]
fn the_gauge_stops_at_zero() {
    let mut m = Metrics::default();
    m.dec_connections_active();
    assert_eq!(m.snapshot().connections_active, 0);
}

#[test]
fn a_full_counter_starts_again() {
    let mut m = Metrics::new();
    m.messages_sent = u64::MAX;
    m.inc_messages_sent();
    assert_eq!(m.snapshot().messages_sent, 0);
}
