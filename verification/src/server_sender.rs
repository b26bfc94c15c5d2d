//! A client's side of its connection: where the server is, when it was last
//! heard, what has been reported, and how a message is sent.

use crate::channel::{new_channel, offer, HandlerQueue, Port, Routed};
use crate::common::make_disconnect_message;
use crate::connection_store::ConnectionStore;
use crate::date_time::now;
use crate::internal_client::ClientOptions;
use crate::metrics::Metrics;
use crate::retry::double_up_to;
use crate::text;
use crate::AtomicWebsocketType;
use std::time::Duration;
use tokio::sync::mpsc::{Receiver, Sender};
use tokio_tungstenite::tungstenite::Message;
use vstd::prelude::*;
use vstd::string::*;

verus! {

/// What a client reports of its connection.
#[derive(Debug, Clone, Copy, PartialEq, Eq, Structural)]
pub enum SenderStatus {
    /// Connection initialization started
    Start,
    /// A connection is being made
    Connecting,
    /// Successfully connected to the server
    Connected,
    /// Disconnected from the server
    Disconnected,
    /// The connection was lost and is being made again
    Reconnecting,
}

/// `tokio`'s `Sender::clone`: another handle to the same channel.
pub assume_specification<T>[ <Sender<T> as Clone>::clone ](sender: &Sender<T>) -> (handle: Sender<
    T,
>)
    ensures
        handle == *sender,
;

/// The port in an address: the digits behind its last colon, slashes at the
/// end left aside. Empty where there are none.
pub open spec fn port_of(address: Seq<char>) -> Seq<char> {
    let trimmed = text::trimmed_end(address, '/');
    let port = text::behind_last(trimmed, ':');
    if port.len() < trimmed.len() && text::all_digits(port) {
        port
    } else {
        Seq::empty()
    }
}

/// The port in an address, empty where there is none.
pub fn parse_port(address: &str) -> (port: String)
    ensures
        port@ == port_of(address@),
{
    let all: Vec<char> = text::characters(address);
    let end: usize = text::trimmed_end_len(&all, '/');
    let trimmed_text: &str = address.substring_char(0, end);
    assert(trimmed_text@ =~= text::trimmed_end(address@, '/'));
    let trimmed: Vec<char> = text::characters(trimmed_text);
    let from: usize = text::find_behind_last(&trimmed, ':');
    assert(trimmed@.subrange(from as int, end as int) =~= text::behind_last(trimmed@, ':'));
    if from > 0 && text::digits_between(&trimmed, from, end) {
        trimmed_text.substring_char(from, end).to_owned()
    } else {
        String::new()
    }
}

/// Whether an address names its own scheme.
pub open spec fn has_scheme(address: Seq<char>) -> bool {
    text::part_place(address, "://"@, 0) is Some
}

/// The URL under which a server is dialed. An address with a scheme is used as
/// it is; to any other the scheme is added, and the port if it carries none.
pub open spec fn ws_url(address: Seq<char>, port: Seq<char>) -> Seq<char> {
    if has_scheme(address) {
        address
    } else if port_of(address).len() > 0 || port.len() == 0 {
        "ws://"@ + address
    } else {
        "ws://"@ + address + ":"@ + port
    }
}

/// The URL under which a server is dialed.
pub fn to_ws_url(address: &str, port: &str) -> (url: String)
    ensures
        url@ == ws_url(address@, port@),
{
    if text::holds_part(address, "://") {
        return address.to_owned();
    }
    let with_scheme: String = "ws://".to_owned().concat(address);
    if !parse_port(address).as_str().is_empty() || port.is_empty() {
        with_scheme
    } else {
        with_scheme.concat(":").concat(port)
    }
}

/// What is left to say to a connection that is being dropped.
pub struct Farewell {
    /// The channel of that connection
    pub sx: Sender<Message>,
    /// Its disconnect notice
    pub message: Message,
}

/// What a message that could not be sent leads to.
#[derive(Debug)]
pub enum Reconnect {
    /// Nothing: the client has not been registered
    Never,
    /// Another attempt to reach the server on the local network
    Internal(String),
    /// Another attempt to reach the server on the internet
    External,
}

/// What to do after an attempt to send.
#[derive(Debug)]
pub enum SendStep {
    /// The message is on its way
    Delivered,
    /// Wait this long, then try again
    RetryAfter(Duration),
    /// No attempt is left
    GiveUp(Reconnect),
}

/// How many times a failed message is sent again.
pub open spec fn retry_limit(retry_seconds: u64) -> u64 {
    if retry_seconds > 5 {
        5
    } else if retry_seconds <= 1 {
        1
    } else {
        (retry_seconds - 1) as u64
    }
}

/// The attempts to send one message.
#[derive(Debug)]
pub struct SendRetry {
    backoff: Duration,
    max_backoff: Duration,
    count: u64,
    limit_count: u64,
}

impl SendRetry {
    /// How many times the message has been sent again.
    pub closed spec fn count(&self) -> nat {
        self.count as nat
    }

    /// How many times it may be sent again.
    pub closed spec fn limit(&self) -> nat {
        self.limit_count as nat
    }

    /// The waits so far follow the schedule: 50 milliseconds, doubled before
    /// each wait, up to one second.
    pub closed spec fn wf(&self) -> bool {
        &&& self.count <= self.limit_count <= 5
        &&& crate::retry::nanos(self.max_backoff) == 1_000_000_000
        &&& crate::retry::nanos(self.backoff) == crate::retry::kth_wait(
            50_000_000,
            1_000_000_000,
            self.count as nat,
        )
    }
}

/// What is known of a client's connection.
pub struct SenderView {
    pub sx: Option<Sender<Message>>,
    pub server_ip: Seq<char>,
    pub received: i64,
    pub is_try_connect: bool,
    pub is_scanning: bool,
    pub registered: bool,
    /// The statuses reported so far, in order
    pub statuses: Seq<SenderStatus>,
    /// How many reports the channel of the statuses can hold
    pub status_places: usize,
    /// The receiver of the statuses that has not been handed out yet
    pub status_receiver: Option<Receiver<SenderStatus>>,
    /// The receiving end of the channel of the statuses
    pub status_far_end: Receiver<SenderStatus>,
    pub handler: HandlerQueue<Vec<u8>>,
    pub options: ClientOptions,
    pub metrics: Metrics,
}

/// A client's side of its connection.
pub struct ServerSender {
    /// Channel for messages to the server
    pub sx: Option<Sender<Message>>,
    /// Address of the server
    pub server_ip: String,
    /// When the server was last heard
    pub server_received_times: i64,
    status_port: Port<SenderStatus>,
    status_rx: Option<Receiver<SenderStatus>>,
    handler: HandlerQueue<Vec<u8>>,
    /// How the client behaves
    pub options: ClientOptions,
    /// Whether an attempt to connect, or a connection, is under way
    pub is_try_connect: bool,
    /// Whether a scan is under way
    pub is_scanning: bool,
    /// Whether the client may reconnect by itself
    pub registered: bool,
    /// What has been counted
    pub metrics: Metrics,
}

impl View for ServerSender {
    type V = SenderView;

    closed spec fn view(&self) -> SenderView {
        SenderView {
            sx: self.sx,
            server_ip: self.server_ip@,
            received: self.server_received_times,
            is_try_connect: self.is_try_connect,
            is_scanning: self.is_scanning,
            registered: self.registered,
            statuses: crate::channel::offered(self.status_port.offers()),
            status_places: self.status_port.places(),
            status_receiver: self.status_rx,
            status_far_end: self.status_port.far_end(),
            handler: self.handler,
            options: self.options,
            metrics: self.metrics,
        }
    }
}

impl SenderView {
    /// The overflow buffer is within its limit, the address is short enough to
    /// be named in a disconnect notice, and the receivers that are still here
    /// are those of the client's own channels.
    pub open spec fn wf(self) -> bool {
        &&& self.handler.wf()
        &&& crate::wire::text_fits(self.server_ip)
        &&& self.status_receiver matches Some(rx) ==> rx == self.status_far_end
    }

    /// This state with one more status reported.
    pub open spec fn reporting(self, status: SenderStatus) -> SenderView {
        SenderView { statuses: self.statuses.push(status), ..self }
    }

    /// Whether the server was heard recently enough for its address to count
    /// as good: within twice the time between health checks.
    pub open spec fn valid_at(self, now: i64) -> bool {
        &&& self.server_ip.len() > 0
        &&& self.received + 2 * (if self.options.retry_seconds == 0 {
            1
        } else {
            self.options.retry_seconds as int
        }) > now
    }

    /// This state without address and connection.
    pub open spec fn without_ip(self) -> SenderView {
        if self.server_ip.len() > 0 {
            SenderView { sx: None, server_ip: Seq::empty(), ..self }
        } else {
            self
        }
    }

    /// This state with an attempt to connect under way.
    pub open spec fn claimed(self) -> SenderView {
        SenderView { is_try_connect: true, ..self }
    }

    /// This state with no attempt to connect under way.
    pub open spec fn unclaimed(self) -> SenderView {
        SenderView { is_try_connect: false, ..self }
    }

    /// This state with one more attempt to reconnect counted.
    pub open spec fn reconnecting(self) -> SenderView {
        SenderView {
            metrics: Metrics {
                reconnections: crate::metrics::counted(self.metrics.reconnections),
                ..self.metrics
            },
            ..self
        }
    }

    /// This state with a scan under way.
    pub open spec fn scanning(self) -> SenderView {
        SenderView { is_scanning: true, ..self }
    }

    /// This state with no scan under way.
    pub open spec fn not_scanning(self) -> SenderView {
        SenderView { is_scanning: false, ..self }
    }

    /// Whether this farewell is owed to the connection that is being dropped.
    pub open spec fn owes(self, farewell: Option<Farewell>) -> bool {
        match (self.sx, farewell) {
            (Some(sx), Some(farewell)) => farewell.sx == sx && crate::common::carries(
                farewell.message,
                crate::common::disconnect_bytes(self.server_ip),
            ),
            (None, None) => true,
            _ => false,
        }
    }
}

/// Whether `after` is `before` with a message handed on to the application:
/// behind all others if there was room for it, and nowhere if there was none
/// or if nobody listens any more.
pub open spec fn handed_on(
    before: SenderView,
    after: SenderView,
    bytes: Seq<u8>,
    routed: Routed,
) -> bool {
    &&& after == (SenderView { handler: after.handler, metrics: after.metrics, ..before })
    &&& exists|item: Vec<u8>|
        item@ == bytes && #[trigger] crate::channel::pushed(
            before.handler,
            after.handler,
            item,
            routed,
        )
    &&& routed == Routed::Delivered || routed == Routed::Buffered ==> {
        &&& after.handler.kept().len() == before.handler.kept().len() + 1
        &&& after.handler.kept().drop_last() == before.handler.kept()
        &&& after.handler.kept().last()@ == bytes
    }
    &&& routed == Routed::Dropped || routed == Routed::Lost ==> after.handler.kept()
        == before.handler.kept()
    &&& after.metrics == (Metrics {
        messages_received: crate::metrics::counted(before.metrics.messages_received),
        messages_dropped: if routed == Routed::Dropped {
            crate::metrics::counted(before.metrics.messages_dropped)
        } else {
            before.metrics.messages_dropped
        },
        ..before.metrics
    })
}

impl ServerSender {
    /// A client that knows this address and has no connection.
    pub fn new(server_ip: String, options: ClientOptions) -> (sender: Self)
        requires
            options.channels_possible(),
            crate::wire::text_fits(server_ip@),
        ensures
            sender@.wf(),
            sender@.sx is None,
            sender@.server_ip == server_ip@,
            sender@.received == 0,
            !sender@.is_try_connect,
            !sender@.is_scanning,
            !sender@.registered,
            sender@.statuses == Seq::<SenderStatus>::empty(),
            sender@.status_places == options.status_buffer_size,
            sender@.status_receiver == Some(sender@.status_far_end),
            sender@.handler.places() == options.handler_buffer_size,
            sender@.handler.offers() == crate::channel::no_offers::<Vec<u8>>(),
            sender@.handler.kept() == Seq::<Vec<u8>>::empty(),
            sender@.handler.room() == options.spillover_buffer_size,
            sender@.handler.receiver() == Some(sender@.handler.far_end()),
            sender@.options == options,
            sender@.metrics == Metrics::zero(),
    {
        let (status_port, status_rx) = new_channel(options.status_buffer_size);
        assert(crate::channel::offered(status_port.offers()) =~= Seq::<SenderStatus>::empty());
        let handler: HandlerQueue<Vec<u8>> = HandlerQueue::new(
            options.handler_buffer_size,
            options.spillover_buffer_size,
        );
        ServerSender {
            sx: None,
            server_ip,
            server_received_times: 0,
            status_port,
            status_rx: Some(status_rx),
            handler,
            options,
            is_try_connect: false,
            is_scanning: false,
            registered: false,
            metrics: Metrics::new(),
        }
    }

    /// Hands out the receiver of status reports, once.
    pub fn get_status_receiver(&mut self) -> (receiver: Option<Receiver<SenderStatus>>)
        requires
            old(self)@.wf(),
        ensures
            final(self)@.wf(),
            receiver == old(self)@.status_receiver,
            receiver matches Some(rx) ==> rx == old(self)@.status_far_end,
            final(self)@ == (SenderView { status_receiver: None, ..old(self)@ }),
    {
        self.status_rx.take()
    }

    /// Hands out the receiver of messages from the server, once.
    pub fn get_handle_message_receiver(&mut self) -> (receiver: Option<Receiver<Vec<u8>>>)
        requires
            old(self)@.wf(),
        ensures
            final(self)@.wf(),
            receiver == old(self)@.handler.receiver(),
            receiver matches Some(rx) ==> rx == old(self)@.handler.far_end(),
            crate::channel::receiver_taken(old(self)@.handler, final(self)@.handler),
            final(self)@ == (SenderView { handler: final(self)@.handler, ..old(self)@ }),
    {
        self.handler.take_receiver()
    }

    /// Whether the receiver of status reports has not been handed out yet.
    pub fn has_status_receiver(&self) -> (r: bool)
        ensures
            r == (self@.status_receiver is Some),
    {
        self.status_rx.is_some()
    }

    /// Whether the receiver of messages has not been handed out yet.
    pub fn has_handle_message_receiver(&self) -> (r: bool)
        ensures
            r == (self@.handler.receiver() is Some),
    {
        self.handler.has_receiver()
    }

    /// Allows the client to reconnect by itself.
    pub fn regist(&mut self)
        ensures
            final(self)@ == (SenderView { registered: true, ..old(self)@ }),
    {
        self.registered = true;
    }

    /// Drops the connection, if there is one. What is returned still has to be
    /// said to it.
    fn sx_drop(&mut self) -> (farewell: Option<Farewell>)
        requires
            old(self)@.wf(),
        ensures
            old(self)@.owes(farewell),
            final(self)@ == (SenderView { sx: None, ..old(self)@ }),
    {
        match self.sx.take() {
            Some(sx) => {
                let message: Message = make_disconnect_message(self.server_ip.as_str());
                Some(Farewell { sx, message })
            },
            None => None,
        }
    }

    /// Takes a new connection to this address in place of the one before.
    pub fn add(&mut self, sx: Sender<Message>, server_ip: &str) -> (farewell: Option<Farewell>)
        requires
            old(self)@.wf(),
            crate::wire::text_fits(server_ip@),
        ensures
            final(self)@.wf(),
            old(self)@.owes(farewell),
            final(self)@ == (SenderView {
                sx: Some(sx),
                server_ip: server_ip@,
                ..old(self)@
            }),
    {
        let farewell = self.sx_drop();
        self.sx = Some(sx);
        self.server_ip = server_ip.to_owned();
        farewell
    }

    /// Takes a new connection and remembers its address and port.
    pub fn add_to_store<S: ConnectionStore>(
        &mut self,
        store: &mut S,
        sx: Sender<Message>,
        server_ip: &str,
    ) -> (farewell: Option<Farewell>)
        requires
            old(self)@.wf(),
            crate::wire::text_fits(server_ip@),
        ensures
            final(self)@.wf(),
            old(self)@.owes(farewell),
            final(self)@ == (SenderView {
                sx: Some(sx),
                server_ip: server_ip@,
                ..old(self)@
            }),
            final(store).connect_info() == old(store).info_after_set(
                server_ip@,
                port_of(server_ip@),
            ),
            final(store).client_id() == old(store).client_id(),
            final(store).registered() == old(store).registered(),
    {
        let farewell = self.add(sx, server_ip);
        store.set_server_connect_info(server_ip, parse_port(server_ip).as_str());
        farewell
    }

    /// Forgets the address and drops the connection.
    pub fn remove_ip(&mut self) -> (farewell: Option<Farewell>)
        requires
            old(self)@.wf(),
        ensures
            final(self)@.wf(),
            final(self)@ == old(self)@.without_ip(),
            old(self)@.server_ip.len() > 0 ==> old(self)@.owes(farewell),
            old(self)@.server_ip.len() == 0 ==> farewell is None,
    {
        proof {
            crate::wire::lemma_empty_fits();
        }
        if self.server_ip.as_str().is_empty() {
            None
        } else {
            let farewell = self.sx_drop();
            self.server_ip = String::new();
            farewell
        }
    }

    /// Forgets the address, drops the connection, and clears the stored
    /// address so that the next attempt does not use it. What the failed
    /// address was makes no difference.
    pub fn remove_ip_if_valid_server_ip<S: ConnectionStore>(
        &mut self,
        store: &mut S,
        server_ip: &str,
    ) -> (farewell: Option<Farewell>)
        requires
            old(self)@.wf(),
        ensures
            final(self)@.wf(),
            final(self)@ == old(self)@.without_ip(),
            old(self)@.server_ip.len() > 0 ==> old(self)@.owes(farewell),
            old(self)@.server_ip.len() == 0 ==> farewell is None,
            final(store).connect_info() == old(store).info_after_clear(),
            final(store).client_id() == old(store).client_id(),
            final(store).registered() == old(store).registered(),
    {
        let farewell = self.remove_ip();
        store.clear_server_ip(server_ip);
        farewell
    }

    /// Reports a status. A report that finds no room is lost.
    pub fn send_status(&mut self, status: SenderStatus)
        ensures
            final(self)@ == old(self)@.reporting(status),
    {
        let _ = offer(&mut self.status_port, status);
        assert(self@.statuses =~= old(self)@.statuses.push(status));
    }

    /// Hands a message from the server on to the application.
    pub fn send_handle_message(&mut self, data: Vec<u8>) -> (routed: Routed)
        requires
            old(self)@.wf(),
        ensures
            final(self)@.wf(),
            handed_on(old(self)@, final(self)@, data@, routed),
    {
        self.metrics.inc_messages_received();
        let routed = self.handler.push(data);
        if routed == Routed::Dropped {
            self.metrics.inc_messages_dropped();
        }
        assert(old(self)@.handler.kept().push(data).drop_last() =~= old(self)@.handler.kept());
        routed
    }

    /// Whether the server was heard recently enough at this time.
    pub fn is_valid_server_ip_at(&self, now: i64) -> (r: bool)
        ensures
            r == self@.valid_at(now),
    {
        let retry: u64 = if self.options.retry_seconds == 0 {
            1
        } else {
            self.options.retry_seconds
        };
        !self.server_ip.as_str().is_empty() && self.server_received_times as i128 + 2 * retry as i128
            > now as i128
    }

    /// Whether the server was heard recently enough by now. The clock decides;
    /// without an address the answer is no.
    pub fn is_valid_server_ip(&self) -> (r: bool)
        ensures
            exists|time: i64|
                crate::date_time::clock_time(time) && r == #[trigger] self@.valid_at(time),
            self@.server_ip.len() == 0 ==> !r,
    {
        let time: i64 = now();
        self.is_valid_server_ip_at(time)
    }

    /// Notes that the server was heard at this time.
    pub fn write_received_times_at(&mut self, now: i64)
        ensures
            final(self)@ == (SenderView { received: now, ..old(self)@ }),
    {
        self.server_received_times = now;
    }

    /// Notes that the server was heard now.
    pub fn write_received_times(&mut self)
        ensures
            exists|time: i64| #[trigger]
                crate::date_time::clock_time(time) && final(self)@ == (SenderView {
                    received: time,
                    ..old(self)@
                }),
    {
        let time: i64 = now();
        self.write_received_times_at(time);
    }

    /// Whether a connection to this address has to be made: it is not the
    /// current one, and no attempt is under way.
    pub fn is_need_connect(&self, server_ip: &str) -> (r: bool)
        ensures
            r == (server_ip@ != self@.server_ip && !self@.is_try_connect),
    {
        !text::same(server_ip, self.server_ip.as_str()) && !self.is_try_connect
    }

    /// Claims the one attempt to connect that may be under way; returns whether
    /// it was free.
    pub fn claim_connect(&mut self) -> (free: bool)
        ensures
            free == !old(self)@.is_try_connect,
            final(self)@ == old(self)@.claimed(),
    {
        let free: bool = !self.is_try_connect;
        self.is_try_connect = true;
        free
    }

    /// Gives the attempt to connect back.
    pub fn release_connect(&mut self)
        ensures
            final(self)@ == old(self)@.unclaimed(),
    {
        self.is_try_connect = false;
    }

    /// Claims the one scan that may be under way; returns whether it was free.
    pub fn claim_scan(&mut self) -> (free: bool)
        ensures
            free == !old(self)@.is_scanning,
            final(self)@ == old(self)@.scanning(),
    {
        let free: bool = !self.is_scanning;
        self.is_scanning = true;
        free
    }

    /// Gives the scan back.
    pub fn release_scan(&mut self)
        ensures
            final(self)@ == old(self)@.not_scanning(),
    {
        self.is_scanning = false;
    }

    /// Whether an attempt to connect, or a connection, is under way.
    pub fn is_connecting(&self) -> (r: bool)
        ensures
            r == self@.is_try_connect,
    {
        self.is_try_connect
    }

    /// When the server was last heard.
    pub fn received_times(&self) -> (time: i64)
        ensures
            time == self@.received,
    {
        self.server_received_times
    }

    /// Notes one more attempt to reconnect.
    pub fn count_reconnection(&mut self)
        ensures
            final(self)@ == old(self)@.reconnecting(),
    {
        self.metrics.inc_reconnections();
    }

    /// What this client has counted.
    pub fn counters(&self) -> (metrics: &Metrics)
        ensures
            *metrics == self@.metrics,
    {
        &self.metrics
    }

    /// Takes these options and this address in place of the ones before.
    pub fn set_options(&mut self, server_ip: String, options: ClientOptions)
        ensures
            final(self)@ == (SenderView { server_ip: server_ip@, options, ..old(self)@ }),
    {
        self.server_ip = server_ip;
        self.options = options;
    }

    /// Begins to send a message: the channel to offer it to, and the record of
    /// the attempts. Nothing where there is no connection.
    pub fn begin_send(&self) -> (attempt: Option<(Sender<Message>, SendRetry)>)
        ensures
            attempt is Some <==> self@.sx is Some,
            attempt matches Some((sx, retry)) ==> {
                &&& Some(sx) == self@.sx
                &&& retry.wf()
                &&& retry.count() == 0
                &&& retry.limit() == retry_limit(self@.options.retry_seconds)
            },
    {
        match &self.sx {
            Some(sx) => {
                let limit_count: u64 = if self.options.retry_seconds > 5 {
                    5
                } else if self.options.retry_seconds <= 1 {
                    1
                } else {
                    self.options.retry_seconds - 1
                };
                let retry = SendRetry {
                    backoff: Duration::from_millis(50),
                    max_backoff: Duration::from_secs(1),
                    count: 0,
                    limit_count,
                };
                Some((sx.clone(), retry))
            },
            None => None,
        }
    }

    /// Decides what follows an attempt to send: nothing if the message was
    /// taken, a wait and another attempt while there is one left, and after the
    /// last the report that the connection is gone and another attempt to
    /// connect.
    pub fn after_send(&mut self, retry: &mut SendRetry, taken: bool) -> (step: SendStep)
        requires
            old(retry).wf(),
        ensures
            final(retry).wf(),
            final(retry).limit() == old(retry).limit(),
            taken ==> {
                &&& step is Delivered
                &&& final(self)@ == old(self)@
                &&& *final(retry) == *old(retry)
            },
            !taken && old(retry).count() < old(retry).limit() ==> {
                &&& final(retry).count() == old(retry).count() + 1
                &&& step matches SendStep::RetryAfter(wait) && crate::retry::nanos(wait)
                    == crate::retry::kth_wait(50_000_000, 1_000_000_000, final(retry).count())
                &&& final(self)@ == old(self)@
            },
            !taken && old(retry).count() >= old(retry).limit() ==> {
                &&& *final(retry) == *old(retry)
                &&& final(self)@ == old(self)@.reporting(SenderStatus::Disconnected)
                &&& step matches SendStep::GiveUp(reconnect) && match reconnect {
                    Reconnect::Never => !old(self)@.registered,
                    Reconnect::Internal(server_ip) => old(self)@.registered
                        && old(self)@.options.atomic_websocket_type
                        == AtomicWebsocketType::Internal && server_ip@ == old(self)@.server_ip,
                    Reconnect::External => old(self)@.registered
                        && old(self)@.options.atomic_websocket_type
                        == AtomicWebsocketType::External,
                }
            },
    {
        if taken {
            return SendStep::Delivered;
        }
        if retry.count >= retry.limit_count {
            self.send_status(SenderStatus::Disconnected);
            if !self.registered {
                return SendStep::GiveUp(Reconnect::Never);
            }
            return match self.options.atomic_websocket_type {
                AtomicWebsocketType::Internal => SendStep::GiveUp(
                    Reconnect::Internal(self.server_ip.clone()),
                ),
                AtomicWebsocketType::External => SendStep::GiveUp(Reconnect::External),
            };
        }
        retry.backoff = double_up_to(retry.backoff, retry.max_backoff);
        retry.count = retry.count + 1;
        SendStep::RetryAfter(retry.backoff)
    }
}

/// Dialing what has been dialed before leads to the same place: a URL is its
/// own URL, whatever port goes with it.
pub proof fn lemma_ws_url_is_stable(address: Seq<char>, port: Seq<char>, other_port: Seq<char>)
    ensures
        has_scheme(ws_url(address, port)),
        ws_url(ws_url(address, port), other_port) == ws_url(address, port),
{
    if !has_scheme(address) {
        reveal_strlit("ws://");
        reveal_strlit("://");
        let url = ws_url(address, port);
        assert(url.subrange(2, 5) =~= "://"@);
        text::lemma_part_found(url, "://"@, 2);
    }
}

/// The port that was added to an address is the port that is read back from
/// the URL, so that it survives a reconnection.
pub proof fn lemma_added_port_is_read_back(address: Seq<char>, port: Seq<char>)
    requires
        !has_scheme(address),
        port_of(address).len() == 0,
        port.len() > 0,
        text::all_digits(port),
    ensures
        port_of(ws_url(address, port)) == port,
{
    reveal_strlit(":");
    let head = "ws://"@ + address;
    let url = ws_url(address, port);
    assert(":"@ =~= seq![':']);
    assert(url =~= head + seq![':'] + port);
    assert(text::is_digit(port.last()));
    assert(url.last() == port.last());
    assert(text::trimmed_end(url, '/') == url);
    text::lemma_last_place_before_digits(url, ':', head.len() as int, url.len() as int);
    assert(text::behind_last(url, ':') =~= port);
}

/// An address that carries a port keeps it in its URL.
pub proof fn lemma_carried_port_is_kept(address: Seq<char>, port: Seq<char>)
    requires
        !has_scheme(address),
        port_of(address).len() > 0,
    ensures
        port_of(ws_url(address, port)) == port_of(address),
{
    let head = "ws://"@;
    let url = ws_url(address, port);
    assert(url == head + address);
    let trimmed = text::trimmed_end(address, '/');
    text::lemma_trimmed_end_prefix(address, '/');
    text::lemma_trimmed_end_behind(head, address, '/');
    assert(text::trimmed_end(url, '/') =~= head + trimmed);
    text::lemma_last_place_bounds(trimmed, ':', trimmed.len() as int);
    text::lemma_last_place_behind(head, trimmed, ':', trimmed.len() as int);
    assert(text::behind_last(head + trimmed, ':') =~= text::behind_last(trimmed, ':'));
}

} // verus!
