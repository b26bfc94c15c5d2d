//! Options, put together one choice at a time.

use crate::builder::{ClientOptionsBuilder, ServerOptionsBuilder};
use crate::internal_client::ClientOptions;
use crate::internal_server::ServerOptions;
use crate::AtomicWebsocketType;
use vstd::prelude::*;

verus! {

/// What a builder starts with: the defaults, for the local network or for a
/// server on the internet at an address.
pub proof fn lemma_what_a_builder_starts_with(
    defaults: ClientOptions,
    plain: ClientOptionsBuilder,
    internal: ClientOptionsBuilder,
    url: &str,
    external: ClientOptionsBuilder,
    server_defaults: ServerOptions,
    server: ServerOptionsBuilder,
)
    requires
        call_ensures(<ClientOptions as Default>::default, (), defaults),
        call_ensures(ClientOptionsBuilder::new, (), plain),
        call_ensures(ClientOptionsBuilder::internal, (), internal),
        call_ensures(ClientOptionsBuilder::external, (url,), external),
        call_ensures(<ServerOptions as Default>::default, (), server_defaults),
        call_ensures(ServerOptionsBuilder::new, (), server),
    ensures
        plain.so_far() == (ClientOptions { url: plain.so_far().url, ..defaults }),
        plain.so_far().url@.len() == 0,
        internal.so_far() == (ClientOptions { url: internal.so_far().url, ..defaults }),
        internal.so_far().url@.len() == 0,
        internal.so_far().atomic_websocket_type == AtomicWebsocketType::Internal,
        external.so_far() == (ClientOptions {
            url: external.so_far().url,
            atomic_websocket_type: AtomicWebsocketType::External,
            ..defaults
        }),
        external.so_far().url@ == url@,
        server.so_far() == server_defaults,
{
}

/// Each choice for a client sets its own option and no other.
pub proof fn lemma_each_choice_sets_one_client_option(
    builder: ClientOptionsBuilder,
    url: &str,
    with_url: ClientOptionsBuilder,
    yes: bool,
    with_ping: ClientOptionsBuilder,
    seconds: u64,
    with_retry: ClientOptionsBuilder,
    with_keep: ClientOptionsBuilder,
    with_connect: ClientOptionsBuilder,
    kind: AtomicWebsocketType,
    with_kind: ClientOptionsBuilder,
    with_tls: ClientOptionsBuilder,
    with_scan: ClientOptionsBuilder,
    with_scan_timeout: ClientOptionsBuilder,
    built: ClientOptions,
)
    requires
        call_ensures(ClientOptionsBuilder::url, (builder, url), with_url),
        call_ensures(ClientOptionsBuilder::use_ping, (builder, yes), with_ping),
        call_ensures(ClientOptionsBuilder::retry_seconds, (builder, seconds), with_retry),
        call_ensures(ClientOptionsBuilder::use_keep_ip, (builder, yes), with_keep),
        call_ensures(ClientOptionsBuilder::connect_timeout, (builder, seconds), with_connect),
        call_ensures(ClientOptionsBuilder::connection_type, (builder, kind), with_kind),
        call_ensures(ClientOptionsBuilder::use_tls, (builder, yes), with_tls),
        call_ensures(ClientOptionsBuilder::use_scan_discovery, (builder, yes), with_scan),
        call_ensures(ClientOptionsBuilder::scan_timeout, (builder, seconds), with_scan_timeout),
        call_ensures(ClientOptionsBuilder::build, (builder,), built),
    ensures
        built == builder.so_far(),
        with_url.so_far().url@ == url@,
        with_url.so_far() == (ClientOptions { url: with_url.so_far().url, ..built }),
        with_ping.so_far() == (ClientOptions { use_ping: yes, ..built }),
        with_retry.so_far() == (ClientOptions { retry_seconds: seconds, ..built }),
        with_keep.so_far() == (ClientOptions { use_keep_ip: yes, ..built }),
        with_connect.so_far() == (ClientOptions { connect_timeout_seconds: seconds, ..built }),
        with_kind.so_far() == (ClientOptions { atomic_websocket_type: kind, ..built }),
        with_tls.so_far() == (ClientOptions { use_tls: yes, ..built }),
        with_scan.so_far() == (ClientOptions { use_scan_discovery: yes, ..built }),
        with_scan_timeout.so_far() == (ClientOptions { scan_timeout_seconds: seconds, ..built }),
{
}

/// Each choice for a server sets its own option and no other.
pub proof fn lemma_each_choice_sets_one_server_option(
    builder: ServerOptionsBuilder,
    yes: bool,
    with_ping: ServerOptionsBuilder,
    category: i16,
    with_proxy: ServerOptionsBuilder,
    most: usize,
    with_most: ServerOptionsBuilder,
    built: ServerOptions,
)
    requires
        call_ensures(ServerOptionsBuilder::use_ping, (builder, yes), with_ping),
        call_ensures(ServerOptionsBuilder::proxy_ping, (builder, category), with_proxy),
        call_ensures(ServerOptionsBuilder::max_connections, (builder, most), with_most),
        call_ensures(ServerOptionsBuilder::build, (builder,), built),
    ensures
        built == builder.so_far(),
        with_ping.so_far() == (ServerOptions { use_ping: yes, ..built }),
        with_proxy.so_far() == (ServerOptions { proxy_ping: category, ..built }),
        with_most.so_far() == (ServerOptions { max_connections: most, ..built }),
{
}

} // verus!
