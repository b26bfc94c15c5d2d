//! How a client's connections begin and end.

use crate::connection_store::ConnectionStore;
use crate::get_internal_websocket::{
    dial_failed, open_session, OpenedSession, TryConnectGuard, WebsocketSession,
};
use crate::get_websocket::{open_plain_session, plain_session_opened, OpenedPlainSession};
use crate::internal_client::{AtomicClient, ClientOptions};
use crate::schema::Format;
use crate::server_sender::{parse_port, Farewell, SenderStatus, SenderView, ServerSender};
use crate::{AtomicWebsocket, AtomicWebsocketType};
use tokio::sync::mpsc::Sender;
use tokio_tungstenite::tungstenite::Message;
use vstd::prelude::*;
use vstd::utf8::*;

verus! {

/// Whether this is the disconnect notice that a connection is owed when it is
/// dropped: over its channel, for the address in the frame. Nothing is owed
/// where there is no connection.
pub open spec fn is_farewell_to(
    sx: Option<Sender<Message>>,
    frame: Seq<u8>,
    farewell: Option<Farewell>,
) -> bool {
    &&& farewell is Some <==> sx is Some
    &&& farewell matches Some(notice) ==> {
        &&& Some(notice.sx) == sx
        &&& crate::common::is_binary(notice.message)
        &&& crate::common::payload(notice.message) == seq![19u8, 39u8] + frame
    }
}

/// A new connection is taken into use over its channel and at its address, which
/// is remembered with its port, and the one before is bidden farewell. With
/// pings the client names itself and is connected when the server answers;
/// otherwise it is connected at once, and the server counts as heard.
pub proof fn lemma_how_a_connection_begins<S: ConnectionStore>(
    format: Format,
    store: &mut S,
    sender: &mut ServerSender,
    sx: Sender<Message>,
    server_ip: &str,
    options: &ClientOptions,
    now: i64,
    opened: OpenedSession,
    port: String,
    old_frame: Seq<u8>,
    id_frame: Seq<u8>,
)
    requires
        call_ensures(
            open_session::<S>,
            (format, store, sender, sx, server_ip, options, now),
            opened,
        ),
        call_ensures(parse_port, (server_ip,), port),
        encode_utf8(old(sender)@.server_ip).len() <= u32::MAX,
        encode_utf8(old(store).client_id()).len() <= u32::MAX,
        crate::laws::messages::is_length_then(old_frame, encode_utf8(old(sender)@.server_ip)),
        crate::laws::messages::is_length_then(id_frame, encode_utf8(old(store).client_id())),
    ensures
        final(sender)@.sx == Some(sx),
        final(sender)@.server_ip == server_ip@,
        is_farewell_to(old(sender)@.sx, old_frame, opened.farewell),
        final(store).connect_info() == old(store).info_after_set(server_ip@, port@),
        final(store).client_id() == old(store).client_id(),
        opened.session@.format == format,
        opened.session@.id == old(store).client_id(),
        opened.session@.server_ip == server_ip@,
        opened.session@.retry_seconds == options.retry_seconds,
        !opened.session@.is_wait_ping,
        format == Format::Bebop && options.use_ping ==> {
            &&& opened.session@.is_first
            &&& opened.ping matches Some(ping) && crate::common::is_binary(ping)
                && crate::common::payload(ping) == seq![16u8, 39u8] + id_frame + seq![
                0u8,
                0u8,
                0u8,
                0u8,
            ]
            &&& final(sender)@.statuses == old(sender)@.statuses
            &&& final(sender)@.received == old(sender)@.received
        },
        format == Format::Raw || !options.use_ping ==> {
            &&& !opened.session@.is_first
            &&& opened.ping is None
            &&& final(sender)@.statuses == old(sender)@.statuses.push(SenderStatus::Connected)
            &&& final(sender)@.received == now
        },
        final(sender)@ == (SenderView {
            sx: final(sender)@.sx,
            server_ip: final(sender)@.server_ip,
            statuses: final(sender)@.statuses,
            received: final(sender)@.received,
            ..old(sender)@
        }),
{
    crate::laws::messages::lemma_own_bytes(old(sender)@.server_ip, old_frame);
    crate::laws::messages::lemma_own_bytes(old(store).client_id(), id_frame);
}

/// A plain connection begins in the same way, always with the ping that names
/// the client; it counts as connected once that is sent.
pub proof fn lemma_how_a_plain_connection_begins<S: ConnectionStore>(
    store: &mut S,
    sender: &mut ServerSender,
    sx: Sender<Message>,
    server_ip: &str,
    id: &str,
    opened: OpenedPlainSession,
    port: String,
    old_frame: Seq<u8>,
    id_frame: Seq<u8>,
    pinged: &mut ServerSender,
    done: (),
)
    requires
        call_ensures(open_plain_session::<S>, (store, sender, sx, server_ip, id), opened),
        call_ensures(parse_port, (server_ip,), port),
        encode_utf8(old(sender)@.server_ip).len() <= u32::MAX,
        encode_utf8(id@).len() <= u32::MAX,
        crate::laws::messages::is_length_then(old_frame, encode_utf8(old(sender)@.server_ip)),
        crate::laws::messages::is_length_then(id_frame, encode_utf8(id@)),
        call_ensures(plain_session_opened, (pinged,), done),
    ensures
        final(sender)@ == (SenderView { sx: Some(sx), server_ip: server_ip@, ..old(sender)@ }),
        is_farewell_to(old(sender)@.sx, old_frame, opened.farewell),
        crate::common::is_binary(opened.ping),
        crate::common::payload(opened.ping) == seq![16u8, 39u8] + id_frame + seq![
            0u8,
            0u8,
            0u8,
            0u8,
        ],
        final(store).connect_info() == old(store).info_after_set(server_ip@, port@),
        final(store).client_id() == old(store).client_id(),
        final(pinged)@ == (SenderView {
            statuses: old(pinged)@.statuses.push(SenderStatus::Connected),
            ..old(pinged)@
        }),
{
    crate::laws::messages::lemma_own_bytes(old(sender)@.server_ip, old_frame);
    crate::laws::messages::lemma_own_bytes(id@, id_frame);
}

/// When dialing has failed there is no connection: the address is forgotten,
/// here and in the store, and another attempt may be made.
pub proof fn lemma_a_failed_attempt_leaves_nothing_behind<S: ConnectionStore>(
    sender: &mut ServerSender,
    store: &mut S,
    guard: TryConnectGuard,
    server_ip: &str,
    result: (bool, Option<Farewell>),
    frame: Seq<u8>,
)
    requires
        call_ensures(dial_failed::<S>, (sender, store, guard, server_ip), result),
        guard.armed(),
        encode_utf8(old(sender)@.server_ip).len() <= u32::MAX,
        crate::laws::messages::is_length_then(frame, encode_utf8(old(sender)@.server_ip)),
    ensures
        !result.0,
        !final(sender)@.is_try_connect,
        final(sender)@.server_ip.len() == 0,
        final(store).connect_info() == old(store).info_after_clear(),
        final(store).client_id() == old(store).client_id(),
        old(sender)@.server_ip.len() > 0 ==> final(sender)@.sx is None && is_farewell_to(
            old(sender)@.sx,
            frame,
            result.1,
        ),
        old(sender)@.server_ip.len() == 0 ==> result.1 is None,
        final(sender)@.statuses == old(sender)@.statuses,
        final(sender)@.received == old(sender)@.received,
{
    crate::laws::messages::lemma_own_bytes(old(sender)@.server_ip, frame);
}

/// The claim on the line is given back once: when a connection is closed, or
/// when its guard is released, but not twice.
pub proof fn lemma_the_claim_is_given_back_once(
    session: &WebsocketSession,
    closing: &mut ServerSender,
    guard: &mut TryConnectGuard,
    closed: (),
    spent: TryConnectGuard,
    sender: &mut ServerSender,
    released: (),
)
    requires
        call_ensures(WebsocketSession::close, (session, closing, guard), closed),
        spent == *final(guard),
        call_ensures(TryConnectGuard::release, (spent, sender), released),
    ensures
        final(closing)@ == (SenderView { is_try_connect: false, ..old(closing)@ }),
        final(sender)@ == old(sender)@,
{
}

/// A guard that is released gives the claim back, and leaves all else.
pub proof fn lemma_a_guard_gives_its_claim_back(
    claimed: &mut ServerSender,
    guard: Option<TryConnectGuard>,
    claim: TryConnectGuard,
    sender: &mut ServerSender,
    released: (),
)
    requires
        call_ensures(TryConnectGuard::try_acquire, (claimed,), guard),
        guard == Some(claim),
        call_ensures(TryConnectGuard::release, (claim, sender), released),
    ensures
        !old(claimed)@.is_try_connect,
        final(claimed)@.is_try_connect,
        final(sender)@ == (SenderView { is_try_connect: false, ..old(sender)@ }),
{
}

/// A connection is needed to any address but the current one, while no attempt
/// is under way.
pub proof fn lemma_when_a_connection_is_needed(
    sender: &ServerSender,
    server_ip: &str,
    needed: bool,
)
    requires
        call_ensures(ServerSender::is_need_connect, (sender, server_ip), needed),
    ensures
        sender@.is_try_connect ==> !needed,
        server_ip@ == sender@.server_ip ==> !needed,
        !sender@.is_try_connect && server_ip@ != sender@.server_ip ==> needed,
{
}

/// There is one attempt and one scan at a time: whoever claims it first gets it,
/// and nobody else until it is given back.
pub proof fn lemma_claims_are_exclusive(
    first: &mut ServerSender,
    got: bool,
    second: &mut ServerSender,
    got_too: bool,
    scanning: &mut ServerSender,
    scan: bool,
    scanning_too: &mut ServerSender,
    scan_too: bool,
)
    requires
        call_ensures(ServerSender::claim_connect, (first,), got),
        old(second)@ == final(first)@,
        call_ensures(ServerSender::claim_connect, (second,), got_too),
        call_ensures(ServerSender::claim_scan, (scanning,), scan),
        old(scanning_too)@ == final(scanning)@,
        call_ensures(ServerSender::claim_scan, (scanning_too,), scan_too),
    ensures
        got <==> !old(first)@.is_try_connect,
        !got_too,
        final(first)@ == (SenderView { is_try_connect: true, ..old(first)@ }),
        scan <==> !old(scanning)@.is_scanning,
        !scan_too,
        final(scanning)@ == (SenderView { is_scanning: true, ..old(scanning)@ }),
{
}

/// A client that is told to stop is stopped: its connection is dropped with a
/// farewell and its address is forgotten.
pub proof fn lemma_a_client_that_disconnects_is_stopped(
    client: &mut AtomicClient,
    farewell: Option<Farewell>,
    frame: Seq<u8>,
)
    requires
        call_ensures(AtomicClient::disconnect, (client,), farewell),
        encode_utf8(old(client).server_sender@.server_ip).len() <= u32::MAX,
        crate::laws::messages::is_length_then(
            frame,
            encode_utf8(old(client).server_sender@.server_ip),
        ),
    ensures
        final(client).cancelled,
        final(client).server_sender@.server_ip.len() == 0,
        old(client).server_sender@.server_ip.len() > 0 ==> final(client).server_sender@.sx is None
            && is_farewell_to(old(client).server_sender@.sx, frame, farewell),
        old(client).server_sender@.server_ip.len() == 0 ==> farewell is None,
        final(client).server_sender@.statuses == old(client).server_sender@.statuses,
        final(client).options == old(client).options,
{
    crate::laws::messages::lemma_own_bytes(old(client).server_sender@.server_ip, frame);
}

/// A client without connection: it knows the address and the options that it
/// was given, was never connected, heard or registered, and has nothing under
/// way.
pub proof fn lemma_a_new_sender_has_no_connection(
    server_ip: String,
    options: ClientOptions,
    sender: ServerSender,
)
    requires
        call_ensures(ServerSender::new, (server_ip, options), sender),
    ensures
        sender@.sx is None,
        sender@.server_ip == server_ip@,
        sender@.received == 0,
        !sender@.is_try_connect,
        !sender@.is_scanning,
        !sender@.registered,
        sender@.statuses.len() == 0,
        sender@.status_places == options.status_buffer_size,
        sender@.status_receiver is Some,
        sender@.handler.places() == options.handler_buffer_size,
        sender@.handler.room() == options.spillover_buffer_size,
        sender@.handler.kept().len() == 0,
        sender@.handler.offers().len() == 0,
        sender@.handler.receiver() is Some,
        sender@.options == options,
        sender@.metrics.messages_received == 0,
        sender@.metrics.messages_dropped == 0,
        sender@.metrics.reconnections == 0,
{
}

/// The clients that are made: for the local network and for the internet, with
/// the options they were given otherwise, at the address of the options, with
/// no connection yet, allowed to reconnect, and with an identifier.
pub proof fn lemma_a_client_is_made_for_its_network<S: ConnectionStore>(
    store: &mut S,
    options: ClientOptions,
    internal: AtomicClient,
    outer_store: &mut S,
    outer: AtomicClient,
)
    requires
        call_ensures(AtomicWebsocket::get_internal_client::<S>, (store, options), internal),
        call_ensures(AtomicWebsocket::get_outer_client::<S>, (outer_store, options), outer),
    ensures
        internal.options.atomic_websocket_type == AtomicWebsocketType::Internal,
        internal.options == (ClientOptions {
            atomic_websocket_type: internal.options.atomic_websocket_type,
            ..options
        }),
        outer.options.atomic_websocket_type == AtomicWebsocketType::External,
        outer.options == (ClientOptions {
            atomic_websocket_type: outer.options.atomic_websocket_type,
            ..options
        }),
        internal.server_sender@.options == internal.options,
        outer.server_sender@.options == outer.options,
        internal.server_sender@.server_ip == options.url@,
        outer.server_sender@.server_ip == options.url@,
        internal.server_sender@.sx is None,
        outer.server_sender@.sx is None,
        internal.server_sender@.received == 0,
        outer.server_sender@.received == 0,
        internal.server_sender@.registered,
        outer.server_sender@.registered,
        !internal.server_sender@.is_try_connect,
        !outer.server_sender@.is_try_connect,
        !internal.server_sender@.is_scanning,
        !outer.server_sender@.is_scanning,
        internal.server_sender@.statuses.len() == 0,
        outer.server_sender@.statuses.len() == 0,
        !internal.cancelled,
        !outer.cancelled,
        final(store).registered(),
        final(outer_store).registered(),
        final(store).connect_info() == old(store).connect_info(),
        final(outer_store).connect_info() == old(outer_store).connect_info(),
{
}

/// A client over a connection that is given keeps that connection and what came
/// of it, under the new options and at their address.
pub proof fn lemma_a_client_over_a_given_connection_keeps_it<S: ConnectionStore>(
    store: &mut S,
    options: ClientOptions,
    given: ServerSender,
    internal: AtomicClient,
    outer_store: &mut S,
    outer: AtomicClient,
)
    requires
        call_ensures(
            AtomicWebsocket::get_internal_client_with_server_sender::<S>,
            (store, options, given),
            internal,
        ),
        call_ensures(
            AtomicWebsocket::get_outer_client_with_server_sender::<S>,
            (outer_store, options, given),
            outer,
        ),
    ensures
        internal.options.atomic_websocket_type == AtomicWebsocketType::Internal,
        outer.options.atomic_websocket_type == AtomicWebsocketType::External,
        internal.server_sender@ == (SenderView {
            server_ip: options.url@,
            options: internal.options,
            registered: true,
            ..given@
        }),
        outer.server_sender@ == (SenderView {
            server_ip: options.url@,
            options: outer.options,
            registered: true,
            ..given@
        }),
        !internal.cancelled,
        !outer.cancelled,
        final(store).registered(),
        final(outer_store).registered(),
{
}

} // verus!
