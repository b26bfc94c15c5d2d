//! Putting options together, one at a time.

use crate::internal_client::ClientOptions;
use crate::internal_server::ServerOptions;
use crate::AtomicWebsocketType;
use vstd::prelude::*;

verus! {

/// Puts the options of a client together.
pub struct ClientOptionsBuilder {
    options: ClientOptions,
}

/// Puts the options of a server together.
pub struct ServerOptionsBuilder {
    options: ServerOptions,
}

impl ClientOptionsBuilder {
    /// The options so far.
    pub closed spec fn so_far(&self) -> ClientOptions {
        self.options
    }

    /// Starts with the defaults.
    pub fn new() -> (builder: Self)
        ensures
            builder.so_far().are_defaults(),
    {
        ClientOptionsBuilder { options: ClientOptions::default() }
    }

    /// Starts with the defaults for a server on the local network.
    pub fn internal() -> (builder: Self)
        ensures
            builder.so_far().are_defaults(),
            builder.so_far().atomic_websocket_type == AtomicWebsocketType::Internal,
    {
        let mut options: ClientOptions = ClientOptions::default();
        options.atomic_websocket_type = AtomicWebsocketType::Internal;
        ClientOptionsBuilder { options }
    }

    /// Starts with the defaults for a server on the internet at this address.
    pub fn external(url: &str) -> (builder: Self)
        ensures
            builder.so_far().url@ == url@,
            builder.so_far().atomic_websocket_type == AtomicWebsocketType::External,
            exists|defaults: ClientOptions| #[trigger]
                defaults.are_defaults() && builder.so_far() == (ClientOptions {
                    url: builder.so_far().url,
                    atomic_websocket_type: AtomicWebsocketType::External,
                    ..defaults
                }),
    {
        let mut options: ClientOptions = ClientOptions::default();
        let ghost defaults = options;
        options.atomic_websocket_type = AtomicWebsocketType::External;
        options.url = url.to_owned();
        assert(defaults.are_defaults());
        ClientOptionsBuilder { options }
    }

    /// Sets the address of an external server.
    pub fn url(self, url: &str) -> (builder: Self)
        ensures
            builder.so_far().url@ == url@,
            builder.so_far() == (ClientOptions { url: builder.so_far().url, ..self.so_far() }),
    {
        let mut options: ClientOptions = self.options;
        options.url = url.to_owned();
        ClientOptionsBuilder { options }
    }

    /// Sets whether to ping the server.
    pub fn use_ping(self, use_ping: bool) -> (builder: Self)
        ensures
            builder.so_far() == (ClientOptions { use_ping, ..self.so_far() }),
    {
        let mut options: ClientOptions = self.options;
        options.use_ping = use_ping;
        ClientOptionsBuilder { options }
    }

    /// Sets the seconds between health checks.
    pub fn retry_seconds(self, seconds: u64) -> (builder: Self)
        ensures
            builder.so_far() == (ClientOptions { retry_seconds: seconds, ..self.so_far() }),
    {
        let mut options: ClientOptions = self.options;
        options.retry_seconds = seconds;
        ClientOptionsBuilder { options }
    }

    /// Sets whether to keep the server's address when the connection is lost.
    pub fn use_keep_ip(self, use_keep_ip: bool) -> (builder: Self)
        ensures
            builder.so_far() == (ClientOptions { use_keep_ip, ..self.so_far() }),
    {
        let mut options: ClientOptions = self.options;
        options.use_keep_ip = use_keep_ip;
        ClientOptionsBuilder { options }
    }

    /// Sets the seconds after which an attempt to connect is given up.
    pub fn connect_timeout(self, seconds: u64) -> (builder: Self)
        ensures
            builder.so_far() == (ClientOptions {
                connect_timeout_seconds: seconds,
                ..self.so_far()
            }),
    {
        let mut options: ClientOptions = self.options;
        options.connect_timeout_seconds = seconds;
        ClientOptionsBuilder { options }
    }

    /// Sets where the server is to be found.
    pub fn connection_type(self, connection_type: AtomicWebsocketType) -> (builder: Self)
        ensures
            builder.so_far() == (ClientOptions {
                atomic_websocket_type: connection_type,
                ..self.so_far()
            }),
    {
        let mut options: ClientOptions = self.options;
        options.atomic_websocket_type = connection_type;
        ClientOptionsBuilder { options }
    }

    /// Sets the wish for encryption; the scheme of the address decides.
    pub fn use_tls(self, use_tls: bool) -> (builder: Self)
        ensures
            builder.so_far() == (ClientOptions { use_tls, ..self.so_far() }),
    {
        let mut options: ClientOptions = self.options;
        options.use_tls = use_tls;
        ClientOptionsBuilder { options }
    }

    /// Sets whether the local network may be scanned when no address is known.
    pub fn use_scan_discovery(self, use_scan_discovery: bool) -> (builder: Self)
        ensures
            builder.so_far() == (ClientOptions { use_scan_discovery, ..self.so_far() }),
    {
        let mut options: ClientOptions = self.options;
        options.use_scan_discovery = use_scan_discovery;
        ClientOptionsBuilder { options }
    }

    /// Sets the seconds after which a scan is given up.
    pub fn scan_timeout(self, seconds: u64) -> (builder: Self)
        ensures
            builder.so_far() == (ClientOptions { scan_timeout_seconds: seconds, ..self.so_far() }),
    {
        let mut options: ClientOptions = self.options;
        options.scan_timeout_seconds = seconds;
        ClientOptionsBuilder { options }
    }

    /// The options.
    pub fn build(self) -> (options: ClientOptions)
        ensures
            options == self.so_far(),
    {
        self.options
    }
}

impl Default for ClientOptionsBuilder {
    fn default() -> (builder: Self)
        ensures
            builder.so_far().are_defaults(),
    {
        ClientOptionsBuilder::new()
    }
}

impl ServerOptionsBuilder {
    /// The options so far.
    pub closed spec fn so_far(&self) -> ServerOptions {
        self.options
    }

    /// Starts with the defaults.
    pub fn new() -> (builder: Self)
        ensures
            builder.so_far() == ServerOptions::defaults(),
    {
        ServerOptionsBuilder { options: ServerOptions::default() }
    }

    /// Sets whether to answer pings with pongs.
    pub fn use_ping(self, use_ping: bool) -> (builder: Self)
        ensures
            builder.so_far() == (ServerOptions { use_ping, ..self.so_far() }),
    {
        let mut options: ServerOptions = self.options;
        options.use_ping = use_ping;
        ServerOptionsBuilder { options }
    }

    /// Sets the category under which pings are handed on to the application
    /// instead of being answered. With -1, the default, pings keep their own
    /// category and are handed on only if they are not answered.
    pub fn proxy_ping(self, category: i16) -> (builder: Self)
        ensures
            builder.so_far() == (ServerOptions { proxy_ping: category, ..self.so_far() }),
    {
        let mut options: ServerOptions = self.options;
        options.proxy_ping = category;
        ServerOptionsBuilder { options }
    }

    /// Sets how many connections there may be at once.
    pub fn max_connections(self, max_connections: usize) -> (builder: Self)
        ensures
            builder.so_far() == (ServerOptions { max_connections, ..self.so_far() }),
    {
        let mut options: ServerOptions = self.options;
        options.max_connections = max_connections;
        ServerOptionsBuilder { options }
    }

    /// The options.
    pub fn build(self) -> (options: ServerOptions)
        ensures
            options == self.so_far(),
    {
        self.options
    }
}

impl Default for ServerOptionsBuilder {
    fn default() -> (builder: Self)
        ensures
            builder.so_far() == ServerOptions::defaults(),
    {
        ServerOptionsBuilder::new()
    }
}

} // verus!
