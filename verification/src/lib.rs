//! WebSocket connections that keep themselves alive: the message layout, the
//! client and server state, and the rules that decide when to ping, to
//! reconnect, to scan the local network and to give up.
//!
//! Every item here is a value and the operations on it. Sockets, timers and
//! tasks live outside: they report what happened and carry out what these
//! operations answer.

pub mod atomic;
pub mod builder;
pub mod channel;
pub mod client_sender;
pub mod common;
pub mod connection_state;
pub mod connection_store;
pub mod date_time;
pub mod error;
pub mod get_internal_websocket;
pub mod get_outer_websocket;
pub mod get_websocket;
pub mod internal_client;
pub mod internal_server;
pub mod ip;
pub mod laws;
pub mod metrics;
pub mod middleware;
pub mod raw;
pub mod retry;
pub mod scan_manager;
pub mod schema;
pub mod server_connection;
pub mod server_sender;
pub mod text;
pub mod types;
pub mod wire;

use connection_store::ConnectionStore;
use internal_client::{AtomicClient, ClientOptions};
use server_sender::ServerSender;
use vstd::prelude::*;

verus! {

/// A named value that outlives the process.
#[derive(Debug)]
pub struct Settings {
    pub key: String,
    pub value: Vec<u8>,
}

impl Clone for Settings {
    fn clone(&self) -> (copy: Self)
        ensures
            copy.key@ == self.key@,
            copy.value@ == self.value@,
    {
        Settings {
            key: self.key.clone(),
            value: vstd::slice::slice_to_vec(self.value.as_slice()),
        }
    }
}

/// Where the other end of a connection is to be found.
#[derive(Debug, Clone, Copy, PartialEq, Eq, Structural)]
pub enum AtomicWebsocketType {
    /// A server on the local network
    Internal,
    /// A server on the internet
    External,
}

/// Makes clients.
pub struct AtomicWebsocket {}

/// Whether this is the client that is made of these options, over the
/// connection that is given or a new one.
pub open spec fn client_made(
    client: AtomicClient,
    options: ClientOptions,
    given: Option<ServerSender>,
) -> bool {
    let sender = client.server_sender@;
    &&& client.options == options
    &&& !client.cancelled
    &&& sender.wf()
    &&& match given {
        Some(before) => sender == (server_sender::SenderView {
            server_ip: options.url@,
            options,
            registered: true,
            ..before@
        }),
        None => {
            &&& sender.sx is None
            &&& sender.server_ip == options.url@
            &&& sender.received == 0
            &&& !sender.is_try_connect
            &&& !sender.is_scanning
            &&& sender.registered
            &&& sender.statuses == Seq::<server_sender::SenderStatus>::empty()
            &&& sender.status_places == options.status_buffer_size
            &&& sender.status_receiver == Some(sender.status_far_end)
            &&& sender.handler.places() == options.handler_buffer_size
            &&& sender.handler.receiver() == Some(sender.handler.far_end())
            &&& sender.handler.room() == options.spillover_buffer_size
            &&& sender.handler.offers() == channel::no_offers::<Vec<u8>>()
            &&& sender.handler.kept() == Seq::<Vec<u8>>::empty()
            &&& sender.options == options
            &&& sender.metrics == metrics::Metrics::zero()
        },
    }
}

/// Makes a client, over the connection that is given or a new one, and sees to
/// it that it has an identifier.
fn get_client<S: ConnectionStore>(
    store: &mut S,
    options: ClientOptions,
    server_sender: Option<ServerSender>,
) -> (client: AtomicClient)
    requires
        wire::text_fits(options.url@),
        server_sender is None ==> options.channels_possible(),
        server_sender matches Some(given) ==> given@.wf(),
    ensures
        client_made(client, options, server_sender),
        final(store).registered(),
        final(store).connect_info() == old(store).connect_info(),
        old(store).registered() ==> final(store).client_id() == old(store).client_id(),
{
    let sender: ServerSender = match server_sender {
        Some(given) => {
            let mut sender: ServerSender = given;
            sender.set_options(options.url.clone(), options.clone());
            sender
        },
        None => ServerSender::new(options.url.clone(), options.clone()),
    };
    let client = AtomicClient::over(sender, options);
    client.regist_id(store);
    client
}

impl AtomicWebsocket {
    /// A client of a server on the local network.
    pub fn get_internal_client<S: ConnectionStore>(store: &mut S, options: ClientOptions) -> (client:
        AtomicClient)
        requires
            wire::text_fits(options.url@),
            options.channels_possible(),
        ensures
            client_made(
                client,
                ClientOptions {
                    atomic_websocket_type: AtomicWebsocketType::Internal,
                    ..options
                },
                None,
            ),
            final(store).registered(),
            final(store).connect_info() == old(store).connect_info(),
            old(store).registered() ==> final(store).client_id() == old(store).client_id(),
    {
        let mut options_internal: ClientOptions = options;
        options_internal.atomic_websocket_type = AtomicWebsocketType::Internal;
        get_client(store, options_internal, None)
    }

    /// A client of a server on the local network, over this connection.
    pub fn get_internal_client_with_server_sender<S: ConnectionStore>(
        store: &mut S,
        options: ClientOptions,
        server_sender: ServerSender,
    ) -> (client: AtomicClient)
        requires
            wire::text_fits(options.url@),
            server_sender@.wf(),
        ensures
            client_made(
                client,
                ClientOptions {
                    atomic_websocket_type: AtomicWebsocketType::Internal,
                    ..options
                },
                Some(server_sender),
            ),
            final(store).registered(),
            final(store).connect_info() == old(store).connect_info(),
            old(store).registered() ==> final(store).client_id() == old(store).client_id(),
    {
        let mut options_internal: ClientOptions = options;
        options_internal.atomic_websocket_type = AtomicWebsocketType::Internal;
        get_client(store, options_internal, Some(server_sender))
    }

    /// A client of a server on the internet.
    pub fn get_outer_client<S: ConnectionStore>(store: &mut S, options: ClientOptions) -> (client:
        AtomicClient)
        requires
            wire::text_fits(options.url@),
            options.channels_possible(),
        ensures
            client_made(
                client,
                ClientOptions {
                    atomic_websocket_type: AtomicWebsocketType::External,
                    ..options
                },
                None,
            ),
            final(store).registered(),
            final(store).connect_info() == old(store).connect_info(),
            old(store).registered() ==> final(store).client_id() == old(store).client_id(),
    {
        let mut options_external: ClientOptions = options;
        options_external.atomic_websocket_type = AtomicWebsocketType::External;
        get_client(store, options_external, None)
    }

    /// A client of a server on the internet, over this connection.
    pub fn get_outer_client_with_server_sender<S: ConnectionStore>(
        store: &mut S,
        options: ClientOptions,
        server_sender: ServerSender,
    ) -> (client: AtomicClient)
        requires
            wire::text_fits(options.url@),
            server_sender@.wf(),
        ensures
            client_made(
                client,
                ClientOptions {
                    atomic_websocket_type: AtomicWebsocketType::External,
                    ..options
                },
                Some(server_sender),
            ),
            final(store).registered(),
            final(store).connect_info() == old(store).connect_info(),
            old(store).registered() ==> final(store).client_id() == old(store).client_id(),
    {
        let mut options_external: ClientOptions = options;
        options_external.atomic_websocket_type = AtomicWebsocketType::External;
        get_client(store, options_external, Some(server_sender))
    }
}

} // verus!
