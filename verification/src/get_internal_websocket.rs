//! One connection of a client, from the claim on the line to its end.

use crate::channel::Routed;
use crate::common::{get_data_schema, make_disconnect_message, make_ping_message};
use crate::connection_store::{client_id_from_value, ConnectionStore};
use crate::internal_client::ClientOptions;
use crate::schema::{Category, Data, Format};
use crate::server_sender::{Farewell, SenderStatus, SenderView, ServerSender};
use crate::text;
use crate::types::save_key;
use crate::types::InMemoryStorage;
use tokio::sync::mpsc::Sender;
use tokio_tungstenite::tungstenite::Message;
use vstd::prelude::*;
use vstd::string::*;

verus! {

/// How many seconds a connection that is over may take to flush what it has
/// written.
pub const FLUSH_TIMEOUT_SECONDS: u64 = 1;

/// The claim on the one attempt to connect that may be under way. It is taken
/// before dialing and given back when the attempt, or the connection that came
/// of it, is over.
#[derive(Debug)]
pub struct TryConnectGuard {
    disarmed: bool,
}

impl TryConnectGuard {
    /// Whether the claim still has to be given back.
    pub closed spec fn armed(&self) -> bool {
        !self.disarmed
    }

    /// Claims the attempt. Nothing where one is under way already.
    pub fn try_acquire(sender: &mut ServerSender) -> (guard: Option<TryConnectGuard>)
        ensures
            guard is Some <==> !old(sender)@.is_try_connect,
            guard matches Some(claim) ==> claim.armed() && final(sender)@ == old(sender)@.claimed(),
            guard is None ==> final(sender)@ == old(sender)@,
    {
        if sender.claim_connect() {
            Some(TryConnectGuard { disarmed: false })
        } else {
            None
        }
    }

    /// Notes that the claim has been given back already.
    pub fn disarm(&mut self)
        ensures
            !final(self).armed(),
    {
        self.disarmed = true;
    }

    /// Gives the claim back, unless that has been done.
    pub fn release(self, sender: &mut ServerSender)
        ensures
            self.armed() ==> final(sender)@ == old(sender)@.unclaimed(),
            !self.armed() ==> final(sender)@ == old(sender)@,
    {
        if !self.disarmed {
            sender.release_connect();
        }
    }
}

/// Ends an attempt to connect that has led to no connection: the address is
/// forgotten, here and in the store, and another attempt may be made. Returns
/// that there is no connection, and what is left to say to the one before.
pub fn dial_failed<S: ConnectionStore>(
    sender: &mut ServerSender,
    store: &mut S,
    guard: TryConnectGuard,
    server_ip: &str,
) -> (result: (bool, Option<Farewell>))
    requires
        old(sender)@.wf(),
    ensures
        !result.0,
        final(sender)@.wf(),
        guard.armed() ==> final(sender)@ == old(sender)@.without_ip().unclaimed(),
        !guard.armed() ==> final(sender)@ == old(sender)@.without_ip(),
        old(sender)@.server_ip.len() > 0 ==> old(sender)@.owes(result.1),
        old(sender)@.server_ip.len() == 0 ==> result.1 is None,
        final(store).connect_info() == old(store).info_after_clear(),
        final(store).client_id() == old(store).client_id(),
        final(store).registered() == old(store).registered(),
{
    let farewell = sender.remove_ip_if_valid_server_ip(store, server_ip);
    guard.release(sender);
    (false, farewell)
}

/// The host in a URL: what stands between its scheme and the next colon. The
/// whole text where there is no scheme.
pub open spec fn host_of(url: Seq<char>) -> Seq<char> {
    match text::part_place(url, "://"@, 0) {
        Some(at) => text::before_first(url.skip(at + 3), ':'),
        None => url,
    }
}

/// The host in a URL.
pub fn url_host(url: &str) -> (host: String)
    ensures
        host@ == host_of(url@),
{
    proof {
        reveal_strlit("://");
    }
    let chars: Vec<char> = text::characters(url);
    let end: usize = chars.len();
    match text::find_part(&chars, &text::characters("://")) {
        Some(at) => {
            let rest: &str = url.substring_char(at + 3, end);
            assert(rest@ =~= url@.skip(at + 3));
            let rest_chars: Vec<char> = text::characters(rest);
            let colon: usize = text::find_first(&rest_chars, ':', 0);
            assert(rest@.subrange(0, colon as int) =~= rest@.take(colon as int));
            rest.substring_char(0, colon).to_owned()
        },
        None => url.to_owned(),
    }
}

/// What to do after a message from the server.
pub enum Reaction {
    /// Go on reading
    Ignored,
    /// Go on reading; the message was handed on to the application
    Forwarded(Routed),
    /// Go on reading, and ping the server after this many seconds
    PingAfter(u64),
    /// Pass this disconnect notice to the writer and stop reading
    Close(Message),
}

/// What to do after a message to the server.
#[derive(Debug, Clone, Copy, PartialEq, Eq, Structural)]
pub enum WriterStep {
    /// Go on with the next message
    Continue,
    /// The connection is over
    Close,
}

/// One connection of a client.
#[derive(Debug)]
pub struct WebsocketSession {
    format: Format,
    id: String,
    server_ip: String,
    retry_seconds: u64,
    is_first: bool,
    is_wait_ping: bool,
}

/// What is known of a connection.
pub struct SessionView {
    pub format: Format,
    pub id: Seq<char>,
    pub server_ip: Seq<char>,
    pub retry_seconds: u64,
    /// Whether the server has not been heard yet
    pub is_first: bool,
    /// Whether a ping is due already
    pub is_wait_ping: bool,
}

impl View for WebsocketSession {
    type V = SessionView;

    closed spec fn view(&self) -> SessionView {
        SessionView {
            format: self.format,
            id: self.id@,
            server_ip: self.server_ip@,
            retry_seconds: self.retry_seconds,
            is_first: self.is_first,
            is_wait_ping: self.is_wait_ping,
        }
    }
}

impl SessionView {
    /// The identifier and the host are short enough to be sent.
    pub open spec fn wf(self) -> bool {
        &&& crate::wire::text_fits(self.id)
        &&& crate::wire::text_fits(host_of(self.server_ip))
    }
}

/// A connection that has just been made.
pub struct OpenedSession {
    pub session: WebsocketSession,
    /// What is left to say to the connection before
    pub farewell: Option<Farewell>,
    /// The ping to send first
    pub ping: Option<Message>,
}

/// Takes a connection that has just been made into use. With pings, the
/// client names itself and is connected when the server is first heard;
/// without, it is connected at once.
pub fn open_session<S: ConnectionStore>(
    format: Format,
    store: &mut S,
    sender: &mut ServerSender,
    sx: Sender<Message>,
    server_ip: &str,
    options: &ClientOptions,
    now: i64,
) -> (opened: OpenedSession)
    requires
        old(sender)@.wf(),
        crate::wire::text_fits(server_ip@),
        crate::wire::text_fits(old(store).client_id()),
    ensures
        final(sender)@.wf(),
        opened.session@.wf(),
        opened.session@ == (SessionView {
            format,
            id: old(store).client_id(),
            server_ip: server_ip@,
            retry_seconds: options.retry_seconds,
            is_first: format == Format::Bebop && options.use_ping,
            is_wait_ping: false,
        }),
        old(sender)@.owes(opened.farewell),
        final(store).connect_info() == old(store).info_after_set(
            server_ip@,
            crate::server_sender::port_of(server_ip@),
        ),
        final(store).client_id() == old(store).client_id(),
        final(store).registered() == old(store).registered(),
        ({
            let added = SenderView { sx: Some(sx), server_ip: server_ip@, ..old(sender)@ };
            if format == Format::Bebop && options.use_ping {
                &&& final(sender)@ == added
                &&& opened.ping matches Some(ping) && crate::common::carries(
                    ping,
                    crate::common::ping_bytes(old(store).client_id()),
                )
            } else {
                &&& final(sender)@ == (SenderView { received: now, ..added }).reporting(
                    SenderStatus::Connected,
                )
                &&& opened.ping is None
            }
        }),
{
    let id: String = store.get_client_id();
    let farewell = sender.add_to_store(store, sx, server_ip);
    let waits_for_pong: bool = format == Format::Bebop && options.use_ping;
    let ping: Option<Message> = if waits_for_pong {
        Some(make_ping_message(id.as_str()))
    } else {
        sender.write_received_times_at(now);
        sender.send_status(SenderStatus::Connected);
        None
    };
    let session = WebsocketSession {
        format,
        id,
        server_ip: server_ip.to_owned(),
        retry_seconds: options.retry_seconds,
        is_first: waits_for_pong,
        is_wait_ping: false,
    };
    proof {
        lemma_host_fits(server_ip@);
    }
    OpenedSession { session, farewell, ping }
}

/// Whether this is what a message from the server does to a session and to its
/// client, and what it leads to. Whatever the message is, the server has been
/// heard. The first one with a category reports that the client is connected.
pub open spec fn message_handled(
    session: SessionView,
    session_after: SessionView,
    sender: SenderView,
    sender_after: SenderView,
    data: Seq<u8>,
    now: i64,
    reaction: Reaction,
) -> bool {
    let heard = SenderView { received: now, ..sender };
    if session.format == Format::Raw {
        &&& session_after == session
        &&& reaction matches Reaction::Forwarded(routed) && crate::server_sender::handed_on(
            heard,
            sender_after,
            data,
            routed,
        )
    } else if !crate::common::has_category(data) {
        &&& session_after == session
        &&& reaction is Ignored
        &&& sender_after == heard
    } else {
        let greeted = if session.is_first {
            heard.reporting(SenderStatus::Connected)
        } else {
            heard
        };
        let met = SessionView { is_first: false, ..session };
        if crate::common::is_category(data, Category::Pong) {
            &&& sender_after == greeted
            &&& session_after == (SessionView { is_wait_ping: true, ..met })
            &&& if session.is_wait_ping {
                reaction is Ignored
            } else {
                reaction matches Reaction::PingAfter(seconds) && seconds == session.retry_seconds
            }
        } else if crate::common::is_category(data, Category::Disconnect) {
            &&& sender_after == greeted
            &&& session_after == met
            &&& reaction matches Reaction::Close(notice) && crate::common::carries(
                notice,
                crate::common::disconnect_bytes(host_of(session.server_ip)),
            )
        } else {
            let record = crate::wire::le16(crate::common::category_of(data)) + crate::wire::framed(
                crate::common::body_of(data),
            );
            &&& session_after == met
            &&& if crate::wire::fits_frame(crate::common::body_of(data)) {
                reaction matches Reaction::Forwarded(routed) && crate::server_sender::handed_on(
                    greeted,
                    sender_after,
                    record,
                    routed,
                )
            } else {
                reaction is Ignored && sender_after == greeted
            }
        }
    }
}

impl WebsocketSession {
    /// Decides what a message from the server leads to.
    pub fn on_message(&mut self, sender: &mut ServerSender, data: Vec<u8>, now: i64) -> (reaction:
        Reaction)
        requires
            old(self)@.wf(),
            old(sender)@.wf(),
        ensures
            final(self)@.wf(),
            final(sender)@.wf(),
            message_handled(
                old(self)@,
                final(self)@,
                old(sender)@,
                final(sender)@,
                data@,
                now,
                reaction,
            ),
    {
        sender.write_received_times_at(now);
        if self.format == Format::Raw {
            return Reaction::Forwarded(sender.send_handle_message(data));
        }
        let schema: Data = match get_data_schema(data.as_slice()) {
            Ok(schema) => schema,
            Err(_) => {
                return Reaction::Ignored;
            },
        };
        if self.is_first {
            self.is_first = false;
            sender.send_status(SenderStatus::Connected);
        }
        if schema.category == Category::Pong.code() {
            if self.is_wait_ping {
                return Reaction::Ignored;
            }
            self.is_wait_ping = true;
            return Reaction::PingAfter(self.retry_seconds);
        }
        if schema.category == Category::Disconnect.code() {
            let host: String = url_host(self.server_ip.as_str());
            return Reaction::Close(make_disconnect_message(host.as_str()));
        }
        let mut record: Vec<u8> = Vec::new();
        match schema.serialize(&mut record) {
            Ok(_) => {
                assert(record@ == schema.layout());
                Reaction::Forwarded(sender.send_handle_message(record))
            },
            Err(_) => Reaction::Ignored,
        }
    }

    /// The ping that has become due.
    pub fn ping_due(&mut self) -> (ping: Message)
        requires
            old(self)@.wf(),
        ensures
            final(self)@.wf(),
            final(self)@ == (SessionView { is_wait_ping: false, ..old(self)@ }),
            crate::common::carries(ping, crate::common::ping_bytes(old(self)@.id)),
    {
        self.is_wait_ping = false;
        make_ping_message(self.id.as_str())
    }

    /// Ends the connection: another attempt to connect may be made.
    pub fn close(&self, sender: &mut ServerSender, guard: &mut TryConnectGuard)
        ensures
            final(sender)@ == old(sender)@.unclaimed(),
            !final(guard).armed(),
    {
        sender.release_connect();
        guard.disarm();
    }
}

/// Whether a connection is over once this message has been written, or has
/// failed to be.
pub open spec fn ends_connection(format: Format, bytes: Seq<u8>, written: bool) -> bool {
    ||| !written
    ||| format == Format::Bebop && (!crate::common::has_category(bytes)
        || crate::common::is_category(bytes, Category::Disconnect))
}

/// Decides whether to go on after an attempt to write a message.
pub fn after_write(format: Format, bytes: &[u8], written: bool) -> (step: WriterStep)
    ensures
        step == (if ends_connection(format, bytes@, written) {
            WriterStep::Close
        } else {
            WriterStep::Continue
        }),
{
    if !written {
        return WriterStep::Close;
    }
    if format == Format::Raw {
        return WriterStep::Continue;
    }
    match get_data_schema(bytes) {
        Ok(schema) => if schema.category == Category::Disconnect.code() {
            WriterStep::Close
        } else {
            WriterStep::Continue
        },
        Err(_) => WriterStep::Close,
    }
}

/// The client identifier in a table of settings, empty where there is none.
pub fn get_id(db: &InMemoryStorage) -> (id: String)
    ensures
        id@ == if db@.contains_key("ClientId"@) {
            crate::connection_store::utf8_or_empty(db@["ClientId"@])
        } else {
            Seq::empty()
        },
{
    match db.get(save_key::CLIENT_ID) {
        Some(value) => client_id_from_value(
            Some(vstd::slice::slice_to_vec(value.as_slice())),
        ),
        None => String::new(),
    }
}

/// The host of a URL is short enough to be sent if the URL is.
proof fn lemma_host_fits(url: Seq<char>)
    requires
        crate::wire::text_fits(url),
    ensures
        crate::wire::text_fits(host_of(url)),
{
    match text::part_place(url, "://"@, 0) {
        Some(at) => {
            reveal_strlit("://");
            text::lemma_part_bounds(url, "://"@, 0);
            let rest = url.skip(at + 3);
            assert(rest =~= url.subrange(at + 3, url.len() as int));
            crate::wire::lemma_part_is_no_longer(url, at + 3, url.len() as int);
            text::lemma_first_place_bounds(rest, ':', 0);
            let to = text::first_place(rest, ':', 0);
            assert(text::before_first(rest, ':') =~= rest.subrange(0, to));
            crate::wire::lemma_part_is_no_longer(rest, 0, to);
        },
        None => {},
    }
}

/// While one attempt to connect is under way no other can begin, and once it
/// is over another can.
pub proof fn lemma_one_attempt_at_a_time(sender: SenderView)
    ensures
        sender.claimed().is_try_connect,
        !sender.claimed().unclaimed().is_try_connect,
        !sender.is_try_connect ==> sender.claimed().unclaimed() == sender,
{
}

/// A session reports that the client is connected at most once: the first
/// message with a category does, and none after it.
pub proof fn lemma_connected_is_reported_once(
    session: SessionView,
    session_after: SessionView,
    sender: SenderView,
    sender_after: SenderView,
    data: Seq<u8>,
    now: i64,
    reaction: Reaction,
)
    requires
        message_handled(session, session_after, sender, sender_after, data, now, reaction),
    ensures
        session_after.is_first ==> session.is_first && sender_after.statuses == sender.statuses,
        !session.is_first ==> !session_after.is_first && sender_after.statuses == sender.statuses,
        session.is_first && !session_after.is_first ==> sender_after.statuses
            == sender.statuses.push(SenderStatus::Connected),
{
}

/// Whatever comes from the server shows that it is there: with an address, the
/// connection counts as good.
pub proof fn lemma_any_message_keeps_the_connection_good(
    session: SessionView,
    session_after: SessionView,
    sender: SenderView,
    sender_after: SenderView,
    data: Seq<u8>,
    now: i64,
    reaction: Reaction,
)
    requires
        message_handled(session, session_after, sender, sender_after, data, now, reaction),
        sender.server_ip.len() > 0,
    ensures
        sender_after.valid_at(now),
        sender_after.server_ip == sender.server_ip,
{
}

/// While a ping is due no other is planned, however many pongs come.
pub proof fn lemma_one_ping_at_a_time(
    session: SessionView,
    session_after: SessionView,
    sender: SenderView,
    sender_after: SenderView,
    data: Seq<u8>,
    now: i64,
    reaction: Reaction,
)
    requires
        message_handled(session, session_after, sender, sender_after, data, now, reaction),
    ensures
        reaction is PingAfter ==> !session.is_wait_ping && session_after.is_wait_ping,
        session.is_wait_ping ==> session_after.is_wait_ping && !(reaction is PingAfter),
{
}

/// The disconnect notice ends the connection on which it is written, and so
/// the one that a session passes to its writer.
pub proof fn lemma_disconnect_notice_ends_connection(peer: Seq<char>)
    ensures
        ends_connection(Format::Bebop, crate::common::disconnect_bytes(peer), true),
        !ends_connection(Format::Bebop, crate::common::ping_bytes(peer), true),
{
    crate::common::lemma_own_messages_have_their_category(peer);
}

} // verus!
