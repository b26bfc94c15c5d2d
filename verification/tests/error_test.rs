use atomic_websocket::error::{AtomicWebsocketError, Result};
use tokio::sync::mpsc;
use tokio_tungstenite::tungstenite::Error as WsError;

#[test]
fn test_error_database_display() {
    let err = AtomicWebsocketError::Database("connection failed".to_string());
    let display = err.message();
    assert!(display.contains("Database error"));
    assert!(display.contains("connection failed"));
    assert_eq!(display, "Database error: connection failed");
}

#[test]
fn test_error_serialization_display() {
    let err = AtomicWebsocketError::Serialization("invalid format".to_string());
    let display = err.message();
    assert!(display.contains("Serialization error"));
    assert!(display.contains("invalid format"));
}

#[test]
fn test_error_connection_display() {
    let err = AtomicWebsocketError::Connection("timeout".to_string());
    let display = err.message();
    assert!(display.contains("Connection error"));
    assert!(display.contains("timeout"));
}

#[test]
fn test_error_channel_send_display() {
    let err = AtomicWebsocketError::ChannelSend("channel full".to_string());
    let display = err.message();
    assert!(display.contains("Channel send error"));
    assert!(display.contains("channel full"));
}

#[test]
fn test_error_channel_closed_display() {
    let err = AtomicWebsocketError::ChannelClosed;
    let display = err.message();
    assert!(display.contains("Channel closed"));
}

#[test]
fn test_error_config_display() {
    let err = AtomicWebsocketError::Config("invalid option".to_string());
    let display = err.message();
    assert!(display.contains("Configuration error"));
    assert!(display.contains("invalid option"));
}

#[test]
fn test_error_timeout_display() {
    let err = AtomicWebsocketError::Timeout("connection".to_string());
    let display = err.message();
    assert!(display.contains("timed out"));
    assert!(display.contains("connection"));
}

#[test]
fn test_error_from_io() {
    let io_err = std::io::Error::new(std::io::ErrorKind::NotFound, "file not found");
    let err: AtomicWebsocketError = io_err.into();
    assert!(matches!(err, AtomicWebsocketError::Io(_)));
    let display = err.message();
    assert!(display.contains("IO error"));
    assert_eq!(display, "IO error: file not found");
}

#[test]
fn test_error_from_websocket() {
    let ws_err = WsError::ConnectionClosed;
    let err: AtomicWebsocketError = ws_err.into();
    assert!(matches!(err, AtomicWebsocketError::WebSocket(_)));
    assert_eq!(
        err.message(),
        format!("WebSocket error: {}", WsError::ConnectionClosed)
    );
}

#[test]
fn test_error_from_channel_send() {
    let send_err = mpsc::error::SendError(42i32);
    let text = send_err.to_string();
    let err: AtomicWebsocketError = send_err.into();
    assert!(matches!(err, AtomicWebsocketError::ChannelSend(_)));
    assert_eq!(err.message(), format!("Channel send error: {}", text));
}

#[test]
fn test_error_debug_impl() {
    let err = AtomicWebsocketError::Database("test".to_string());
    let debug = format!("{:?}", err);
    assert!(debug.contains("Database"));
}

#[test]
fn test_result_type_alias() {
    fn test_fn() -> Result<i32> {
        Ok(42)
    }
    assert_eq!(test_fn().unwrap(), 42);

    fn test_err_fn() -> Result<i32> {
        Err(AtomicWebsocketError::Config("test".to_string()))
    }
    assert!(test_err_fn().is_err());
}

#[test]
fn test_error_from_bebop_deserialize() {
    let bebop_err = bebop::DeserializeError::MoreDataExpected(5);
    let text = bebop_err.to_string();
    let err: AtomicWebsocketError = bebop_err.into();
    assert!(matches!(err, AtomicWebsocketError::Serialization(_)));
    assert_eq!(err.message(), format!("Serialization error: {}", text));
}

#[test]
fn the_text_of_an_outside_error_follows_the_headline() {
    let io = AtomicWebsocketError::Io(std::io::Error::other("x"));
    assert_eq!(io.message_with("no space left"), "IO error: no space left");
    let ws = AtomicWebsocketError::WebSocket(WsError::ConnectionClosed);
    assert_eq!(ws.message_with("closed"), "WebSocket error: closed");
    let own = AtomicWebsocketError::Config("bad".to_string());
    assert_eq!(own.message_with("unused"), "Configuration error: bad");
    assert_eq!(
        AtomicWebsocketError::ChannelClosed.message_with("unused"),
        "Channel closed"
    );
}
