use atomic_websocket::get_internal_websocket::url_host;
use atomic_websocket::get_outer_websocket::outer_ws_url;
use atomic_websocket::ip::get_ip;
use atomic_websocket::server_sender::{parse_port, to_ws_url};

#[test]
fn an_explicit_scheme_is_never_overridden() {
    for rustls in [true, false] {
        assert_eq!(
            outer_ws_url("ws://10.0.0.5:9000", rustls),
            "ws://10.0.0.5:9000"
        );
        assert_eq!(
            outer_ws_url("wss://license.jkpos365.com", rustls),
            "wss://license.jkpos365.com"
        );
    }
}

#[test]
fn a_scheme_less_address_defaults_to_tls_under_rustls() {
    assert_eq!(outer_ws_url("10.0.0.5:9000", true), "wss://10.0.0.5:9000");
}

#[test]
fn a_scheme_less_address_defaults_to_plaintext_without_rustls() {
    assert_eq!(outer_ws_url("10.0.0.5:9000", false), "ws://10.0.0.5:9000");
}

#[test]
fn dialing_a_dialed_address_changes_nothing() {
    let once = outer_ws_url("example.com", true);
    assert_eq!(outer_ws_url(&once, false), once);
    assert_eq!(outer_ws_url("http://example.com", false), "ws://http://example.com");
    assert_eq!(outer_ws_url("", true), "wss://");
}

#[test]
fn test_parse_port() {
    assert_eq!(parse_port("ws://10.0.0.5:16250"), "16250");
    assert_eq!(parse_port("ws://10.0.0.5:16250/"), "16250");
    assert_eq!(parse_port("ws://[::1]:16250"), "16250");
    assert_eq!(parse_port("10.0.0.5:16250"), "16250");
    assert_eq!(parse_port("ws://10.0.0.5"), "");
    assert_eq!(parse_port("wss://license.jkpos365.com"), "");
    assert_eq!(parse_port("ws://[::1]"), "");
    assert_eq!(parse_port("10.0.0.5"), "");
    assert_eq!(parse_port("10.0.0.5:"), "");
    assert_eq!(parse_port(""), "");
}

#[test]
fn test_to_ws_url() {
    assert_eq!(to_ws_url("10.0.0.5", "16250"), "ws://10.0.0.5:16250");
    assert_eq!(to_ws_url("10.0.0.5:9000", "16250"), "ws://10.0.0.5:9000");
    assert_eq!(to_ws_url("ws://10.0.0.5:9000", "16250"), "ws://10.0.0.5:9000");
    assert_eq!(to_ws_url("wss://example.com", "16250"), "wss://example.com");
    assert_eq!(to_ws_url("http://example.com", "1"), "http://example.com");
    assert_eq!(to_ws_url("10.0.0.5", ""), "ws://10.0.0.5");
}

#[test]
fn the_port_survives_the_url() {
    let url = to_ws_url("192.168.0.7", "9000");
    assert_eq!(parse_port(&url), "9000");
    assert_eq!(to_ws_url(&url, "1"), url);
    assert_eq!(parse_port(&to_ws_url("192.168.0.7:81", "9000")), "81");
}

#[test]
fn the_host_stands_between_scheme_and_port() {
    assert_eq!(url_host("ws://192.168.1.1:8080"), "192.168.1.1");
    assert_eq!(url_host("ws://example.com"), "example.com");
    assert_eq!(url_host("192.168.1.1:8080"), "192.168.1.1:8080");
    assert_eq!(url_host("ws://a://b"), "a");
    assert_eq!(url_host(""), "");
}

#[test]
fn the_last_octet_is_read() {
    assert_eq!(get_ip(""), 0);
    assert_eq!(get_ip("192.168.0.17"), 17);
    assert_eq!(get_ip("192.168.0.255:9000"), 255);
    assert_eq!(get_ip("192.168.0.256"), 0);
    assert_eq!(get_ip("ws://192.168.0.3:80"), 3);
    assert_eq!(get_ip("12"), 12);
    assert_eq!(get_ip("a.b.c"), 0);
    assert_eq!(get_ip("1.2.3."), 0);
    assert_eq!(get_ip("1.2.3.+7"), 7);
    assert_eq!(get_ip("1.2.3.007"), 7);
    assert_eq!(get_ip("1.2.3.+"), 0);
    assert_eq!(get_ip("1.2.3.-1"), 0);
}
