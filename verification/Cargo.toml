[package]
name = "atomic_websocket"
version = "0.9.7"
edition = "2021"
publish = false

[dependencies]
async-trait = "0.1"
bebop = "*"
chrono = "0.4"
dashmap = "6"
futures-util = "0.3"
log = "0.4"
log4rs = { version = "1", default-features = false, features = ["config_parsing", "yaml_format", "file_appender", "console_appender", "pattern_encoder"] }
nanoid = "0.4"
native_db = "0.8"
native_model = "0.4"
rustls = { version = "0.23", default-features = false, features = ["std", "ring", "tls12"] }
serde = { version = "1", features = ["derive"] }
serde_yaml = "0.9"
thiserror = "2"
tokio = { version = "1", features = ["rt-multi-thread", "macros", "net", "sync", "time", "io-util", "signal"] }
tokio-rustls = { version = "0.26", default-features = false }
tokio-tungstenite = { version = "0.26", features = ["rustls-tls-webpki-roots"] }
tokio-util = "0.7"
webpki-roots = "0.26"

[dev-dependencies]
tempfile = "3"
