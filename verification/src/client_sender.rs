//! The server's side of its connections: who is connected, since when they
//! were last written to, and what they have said.

use crate::channel::{HandlerQueue, Routed};
use crate::common::make_disconnect_message;
use crate::date_time::now;
use crate::internal_server::ServerOptions;
use crate::metrics::Metrics;
use crate::schema::Data;
use crate::text;
use dashmap::DashMap;
use tokio::sync::mpsc::Receiver;
use tokio_tungstenite::tungstenite::Message;
use vstd::prelude::*;

verus! {

#[verifier::external_type_specification]
#[verifier::external_body]
#[verifier::reject_recursive_types(K)]
#[verifier::reject_recursive_types(V)]
#[verifier::reject_recursive_types(S)]
pub struct ExDashMap<K, V, S>(DashMap<K, V, S>);

/// How many seconds one client may hold up a message before it counts as gone.
pub const SEND_TIMEOUT_SECONDS: u64 = 2;

/// How many milliseconds a connection that is being replaced may take to accept
/// its disconnect notice.
pub const NOTICE_TIMEOUT_MILLIS: u64 = 200;

/// One connected client.
#[derive(Debug, Clone, Copy, PartialEq, Eq, Structural)]
pub struct ClientSender {
    /// The number of the channel to this client
    pub sx: u64,
    /// When this client was last written to
    pub send_time: i64,
}

impl ClientSender {
    /// Notes that this client was written to at this time.
    pub fn write_time_at(&mut self, now: i64)
        ensures
            *final(self) == (ClientSender { send_time: now, ..*old(self) }),
    {
        self.send_time = now;
    }

    /// Notes that this client was written to now.
    pub fn write_time(&mut self)
        ensures
            exists|time: i64| #[trigger]
                crate::date_time::clock_time(time) && *final(self) == (ClientSender {
                    send_time: time,
                    ..*old(self)
                }),
    {
        let time: i64 = now();
        self.write_time_at(time);
    }

    /// Whether this client was written to recently enough.
    pub open spec fn alive_at(self, timeout_seconds: u64, now: i64) -> bool {
        self.send_time + timeout_seconds >= now
    }

    /// Whether this client was written to recently enough.
    pub fn is_alive(&self, timeout_seconds: u64, now: i64) -> (r: bool)
        ensures
            r == self.alive_at(timeout_seconds, now),
    {
        self.send_time as i128 + timeout_seconds as i128 >= now as i128
    }
}

/// The clients by name.
pub type Clients = Map<Seq<char>, ClientSender>;

/// No clients.
pub open spec fn no_clients() -> Clients {
    Map::empty()
}

/// What a `DashMap` of clients holds.
pub uninterp spec fn clients_in(table: DashMap<String, ClientSender>) -> Map<Seq<char>, ClientSender>;

/// `DashMap::new`: an empty table.
#[verifier::external_body]
fn new_table() -> (table: DashMap<String, ClientSender>)
    ensures
        clients_in(table) == no_clients(),
{
    DashMap::new()
}

/// Whether there are no more names than can be counted.
pub open spec fn countable(names: Set<Seq<char>>) -> bool {
    names.finite() && names.len() <= usize::MAX
}

/// `DashMap::insert`: puts a client under a name, in place of the one before.
/// A table never holds more entries than its `len` can count.
#[verifier::external_body]
fn put_client(table: &mut DashMap<String, ClientSender>, peer: String, client: ClientSender)
    ensures
        clients_in(*final(table)) == clients_in(*old(table)).insert(peer@, client),
        countable(clients_in(*final(table)).dom()),
{
    table.insert(peer, client);
}

/// `DashMap::get`: the client with this name, if there is one.
#[verifier::external_body]
fn client_named(table: &DashMap<String, ClientSender>, peer: &str) -> (client: Option<ClientSender>)
    ensures
        client is Some <==> clients_in(*table).contains_key(peer@),
        client is Some ==> client->Some_0 == clients_in(*table)[peer@],
{
    table.get(peer).map(|entry| *entry.value())
}

/// `DashMap::remove`: takes the client with this name out; returns whether
/// there was one.
#[verifier::external_body]
fn drop_client(table: &mut DashMap<String, ClientSender>, peer: &str) -> (was_there: bool)
    ensures
        was_there == clients_in(*old(table)).contains_key(peer@),
        clients_in(*final(table)) == clients_in(*old(table)).remove(peer@),
{
    table.remove(peer).is_some()
}

/// Whether there are this many names, and no endless number of them.
pub open spec fn are_as_many(names: Set<Seq<char>>, n: usize) -> bool {
    names.finite() && names.len() == n
}

/// `DashMap::len`: how many clients there are. A table holds finitely many.
#[verifier::external_body]
fn count_clients(table: &DashMap<String, ClientSender>) -> (n: usize)
    ensures
        are_as_many(clients_in(*table).dom(), n),
{
    table.len()
}

/// The clients that were written to recently enough.
pub open spec fn still_alive(clients: Clients, timeout_seconds: u64, now: i64) -> Clients {
    clients.restrict(Set::new(|peer: Seq<char>| clients[peer].alive_at(timeout_seconds, now)))
}

/// `DashMap::retain`: keeps the clients that were written to recently enough
/// and drops all others.
#[verifier::external_body]
fn keep_alive_clients(
    table: &mut DashMap<String, ClientSender>,
    timeout_seconds: u64,
    now: i64,
)
    ensures
        clients_in(*final(table)) == still_alive(clients_in(*old(table)), timeout_seconds, now),
{
    table.retain(|_, client| client.is_alive(timeout_seconds, now));
}

/// Whether a list names each of these clients once and nobody else.
pub open spec fn names_all(list: Seq<String>, names: Set<Seq<char>>) -> bool {
    &&& forall|i: int| 0 <= i < list.len() ==> names.contains((#[trigger] list[i])@)
    &&& forall|name: Seq<char>| #[trigger]
        names.contains(name) ==> exists|i: int| 0 <= i < list.len() && (#[trigger] list[i])@ == name
    &&& forall|i: int, j: int|
        0 <= i < j < list.len() ==> (#[trigger] list[i])@ != (#[trigger] list[j])@
}

/// `DashMap::iter` over the keys: the names of all clients, each once, in no
/// particular order.
#[verifier::external_body]
fn client_names(table: &DashMap<String, ClientSender>) -> (names: Vec<String>)
    ensures
        names_all(names@, clients_in(*table).dom()),
{
    table.iter().map(|entry| entry.key().clone()).collect()
}

/// A connection that is about to be replaced by a newer one of the same client,
/// and the notice that is to be sent to it first, best effort.
pub struct Replaced {
    /// The number of its channel
    pub sx: u64,
    /// Its disconnect notice
    pub message: Message,
    /// How many milliseconds it may take to accept the notice; the replacement
    /// goes on after that, whatever came of it
    pub wait_millis: u64,
}

/// What came of sending a message to a client.
#[derive(Debug, Clone, Copy, PartialEq, Eq, Structural)]
pub enum SendOutcome {
    /// There is no such client
    NoClient,
    /// Its channel has taken the message
    Sent,
    /// Its channel is closed, or did not take the message in time
    Failed,
}

/// What is known of a server's connections.
pub struct SendersView {
    pub clients: Map<Seq<char>, ClientSender>,
    pub handler: HandlerQueue<(Vec<u8>, String)>,
    pub options: ServerOptions,
    pub metrics: Metrics,
}

impl SendersView {
    /// The overflow buffer is within its limit, and as many connections are
    /// counted as active as there are clients.
    pub open spec fn wf(self) -> bool {
        &&& self.clients.dom().finite()
        &&& self.handler.wf()
        &&& self.metrics.connections_active == self.clients.dom().len()
    }

    /// This state with a client connected over this channel at this time. A
    /// client that was connected already is not counted as active once more.
    pub open spec fn with_client(self, peer: Seq<char>, sx: u64, now: i64) -> SendersView {
        SendersView {
            clients: self.clients.insert(peer, ClientSender { sx, send_time: now }),
            metrics: Metrics {
                connections_total: crate::metrics::counted(self.metrics.connections_total),
                connections_active: if self.clients.contains_key(peer) {
                    self.metrics.connections_active
                } else {
                    crate::metrics::counted(self.metrics.connections_active)
                },
                ..self.metrics
            },
            ..self
        }
    }

    /// This state without a client.
    pub open spec fn without_client(self, peer: Seq<char>) -> SendersView {
        if self.clients.contains_key(peer) {
            SendersView {
                clients: self.clients.remove(peer),
                metrics: Metrics {
                    connections_active: crate::metrics::uncounted(self.metrics.connections_active),
                    ..self.metrics
                },
                ..self
            }
        } else {
            self
        }
    }

    /// This state without a client that is connected over this channel.
    pub open spec fn turning_away(self, peer: Seq<char>, sx: u64) -> SendersView {
        if self.clients.contains_key(peer) && self.clients[peer].sx == sx {
            self.without_client(peer)
        } else {
            self
        }
    }

    /// This state with a client written to at this time.
    pub open spec fn touched(self, peer: Seq<char>, now: i64) -> SendersView {
        if self.clients.contains_key(peer) {
            SendersView {
                clients: self.clients.insert(
                    peer,
                    ClientSender { send_time: now, ..self.clients[peer] },
                ),
                ..self
            }
        } else {
            self
        }
    }

    /// Whether a notice is owed to the connection that this client had before.
    pub open spec fn owes(self, peer: Seq<char>, replaced: Option<Replaced>) -> bool {
        if self.clients.contains_key(peer) {
            replaced matches Some(old_one) && old_one.sx == self.clients[peer].sx
                && crate::common::carries(old_one.message, crate::common::disconnect_bytes(peer))
                && old_one.wait_millis == NOTICE_TIMEOUT_MILLIS
        } else {
            replaced is None
        }
    }

    /// Whether `after` is this state with a message of a client handed on to
    /// the application: behind all others if there was room for it, and
    /// nowhere if there was none or if nobody listens any more.
    pub open spec fn hands_on(
        self,
        after: SendersView,
        bytes: Seq<u8>,
        peer: Seq<char>,
        routed: Routed,
    ) -> bool {
        &&& after == (SendersView { handler: after.handler, metrics: after.metrics, ..self })
        &&& exists|item: (Vec<u8>, String)|
            item.0@ == bytes && item.1@ == peer && #[trigger] crate::channel::pushed(
                self.handler,
                after.handler,
                item,
                routed,
            )
        &&& routed == Routed::Delivered || routed == Routed::Buffered ==> {
            &&& after.handler.kept().len() == self.handler.kept().len() + 1
            &&& after.handler.kept().drop_last() == self.handler.kept()
            &&& after.handler.kept().last().0@ == bytes
            &&& after.handler.kept().last().1@ == peer
        }
        &&& routed == Routed::Dropped || routed == Routed::Lost ==> after.handler.kept()
            == self.handler.kept()
        &&& after.metrics == (Metrics {
            messages_received: crate::metrics::counted(self.metrics.messages_received),
            messages_dropped: if routed == Routed::Dropped {
                crate::metrics::counted(self.metrics.messages_dropped)
            } else {
                self.metrics.messages_dropped
            },
            ..self.metrics
        })
    }
}

/// A server's side of its connections.
pub struct ClientSenders {
    clients: DashMap<String, ClientSender>,
    handler: HandlerQueue<(Vec<u8>, String)>,
    options: ServerOptions,
    metrics: Metrics,
}

impl View for ClientSenders {
    type V = SendersView;

    closed spec fn view(&self) -> SendersView {
        SendersView {
            clients: clients_in(self.clients),
            handler: self.handler,
            options: self.options,
            metrics: self.metrics,
        }
    }
}

/// Whether a list of names holds this one.
pub open spec fn lists(list: Seq<String>, name: Seq<char>) -> bool {
    exists|i: int| 0 <= i < list.len() && (#[trigger] list[i])@ == name
}

/// Whether a list of names holds this one.
fn is_listed(list: &[String], name: &str) -> (r: bool)
    ensures
        r == lists(list@, name@),
{
    let mut i: usize = 0;
    while i < list.len()
        invariant
            i <= list@.len(),
            forall|j: int| 0 <= j < i ==> (#[trigger] list@[j])@ != name@,
        decreases list@.len() - i,
    {
        if text::same(list[i].as_str(), name) {
            return true;
        }
        i = i + 1;
    }
    false
}

impl ClientSenders {
    /// No connections, with room for 1024 messages in the channel and as many
    /// in the overflow buffer.
    pub fn new() -> (senders: Self)
        ensures
            senders@.wf(),
            senders@.clients == no_clients(),
            senders@.handler.places() == 1024,
            senders@.handler.offers() == crate::channel::no_offers::<(Vec<u8>, String)>(),
            senders@.handler.kept() == Seq::<(Vec<u8>, String)>::empty(),
            senders@.handler.room() == 1024,
            senders@.handler.receiver() == Some(senders@.handler.far_end()),
            senders@.options == ServerOptions::defaults(),
            senders@.metrics == Metrics::zero(),
    {
        Self::new_with_buffer_size(1024, 1024)
    }

    /// No connections, with this much room for messages in the channel and in
    /// the overflow buffer.
    pub fn new_with_buffer_size(handler_buffer_size: usize, spillover_buffer_size: usize) -> (senders:
        Self)
        requires
            crate::channel::possible_capacity(handler_buffer_size),
        ensures
            senders@.wf(),
            senders@.clients == no_clients(),
            senders@.handler.places() == handler_buffer_size,
            senders@.handler.offers() == crate::channel::no_offers::<(Vec<u8>, String)>(),
            senders@.handler.kept() == Seq::<(Vec<u8>, String)>::empty(),
            senders@.handler.room() == spillover_buffer_size,
            senders@.handler.receiver() == Some(senders@.handler.far_end()),
            senders@.options == ServerOptions::defaults(),
            senders@.metrics == Metrics::zero(),
    {
        let handler: HandlerQueue<(Vec<u8>, String)> = HandlerQueue::new(
            handler_buffer_size,
            spillover_buffer_size,
        );
        ClientSenders {
            clients: new_table(),
            handler,
            options: ServerOptions::default(),
            metrics: Metrics::new(),
        }
    }

    /// The notice that is owed to the connection that this client has now,
    /// before a new one takes its place.
    pub fn notice_owed(&self, peer: &str) -> (replaced: Option<Replaced>)
        requires
            self@.wf(),
            crate::wire::text_fits(peer@),
        ensures
            self@.owes(peer@, replaced),
    {
        match client_named(&self.clients, peer) {
            Some(previous) => Some(
                Replaced {
                    sx: previous.sx,
                    message: make_disconnect_message(peer),
                    wait_millis: NOTICE_TIMEOUT_MILLIS,
                },
            ),
            None => None,
        }
    }

    /// Connects a client over this channel at this time, in place of the
    /// connection that it had before. That one is told first: see
    /// `notice_owed`.
    pub fn add_at(&mut self, peer: &str, sx: u64, now: i64)
        requires
            old(self)@.wf(),
        ensures
            final(self)@.wf(),
            final(self)@ == old(self)@.with_client(peer@, sx, now),
    {
        let is_new: bool = client_named(&self.clients, peer).is_none();
        put_client(&mut self.clients, peer.to_owned(), ClientSender { sx, send_time: now });
        self.metrics.inc_connections_total();
        if is_new {
            self.metrics.inc_connections_active();
        } else {
            assert(old(self)@.clients.dom().insert(peer@) =~= old(self)@.clients.dom());
        }
    }

    /// Connects a client over this channel now.
    pub fn add(&mut self, peer: &str, sx: u64)
        requires
            old(self)@.wf(),
        ensures
            final(self)@.wf(),
            exists|time: i64|
                crate::date_time::clock_time(time) && final(self)@
                    == #[trigger] old(self)@.with_client(peer@, sx, time),
    {
        let time: i64 = now();
        self.add_at(peer, sx, time);
    }

    /// Hands out the receiver of messages from clients, once.
    pub fn get_handle_message_receiver(&mut self) -> (receiver: Option<Receiver<(Vec<u8>, String)>>)
        requires
            old(self)@.wf(),
        ensures
            final(self)@.wf(),
            receiver == old(self)@.handler.receiver(),
            receiver matches Some(rx) ==> rx == old(self)@.handler.far_end(),
            crate::channel::receiver_taken(old(self)@.handler, final(self)@.handler),
            final(self)@ == (SendersView { handler: final(self)@.handler, ..old(self)@ }),
    {
        self.handler.take_receiver()
    }

    /// Takes these options in place of the ones before.
    pub fn set_options(&mut self, options: ServerOptions)
        ensures
            final(self)@ == (SendersView { options, ..old(self)@ }),
    {
        self.options = options;
    }

    /// The options of the server.
    pub fn options(&self) -> (options: ServerOptions)
        ensures
            options == self@.options,
    {
        self.options
    }

    /// What the server has counted.
    pub fn metrics(&self) -> (metrics: &Metrics)
        ensures
            *metrics == self@.metrics,
    {
        &self.metrics
    }

    /// Hands a message of a client on to the application, without waiting.
    pub fn send_handle_message(&mut self, data: Vec<u8>, peer: &str) -> (routed: Routed)
        requires
            old(self)@.wf(),
        ensures
            final(self)@.wf(),
            old(self)@.hands_on(final(self)@, data@, peer@, routed),
    {
        self.metrics.inc_messages_received();
        let item: (Vec<u8>, String) = (data, peer.to_owned());
        let routed = self.handler.push(item);
        if routed == Routed::Dropped {
            self.metrics.inc_messages_dropped();
        }
        assert(old(self)@.handler.kept().push(item).drop_last() =~= old(self)@.handler.kept());
        routed
    }

    /// Hands a message of a client on to the application as a record. A
    /// message too long to be written as one goes nowhere.
    pub fn send_handle_data(&mut self, data: Data<'_>, peer: &str) -> (routed: Option<Routed>)
        requires
            old(self)@.wf(),
        ensures
            final(self)@.wf(),
            routed is Some <==> crate::wire::fits_frame(data.datas@),
            routed matches Some(r) ==> old(self)@.hands_on(
                final(self)@,
                data.layout(),
                peer@,
                r,
            ),
            routed is None ==> final(self)@ == old(self)@,
    {
        let mut record: Vec<u8> = Vec::new();
        match data.serialize(&mut record) {
            Ok(_) => {
                assert(record@ == data.layout());
                Some(self.send_handle_message(record, peer))
            },
            Err(_) => None,
        }
    }

    /// Drops the clients that were not written to for longer than the options
    /// allow, at this time.
    pub fn check_client_send_time_at(&mut self, now: i64)
        requires
            old(self)@.wf(),
        ensures
            final(self)@.wf(),
            final(self)@.clients == still_alive(
                old(self)@.clients,
                old(self)@.options.client_timeout_seconds,
                now,
            ),
            final(self)@ == (SendersView {
                clients: final(self)@.clients,
                metrics: (Metrics {
                    connections_active: final(self)@.clients.dom().len() as u64,
                    ..old(self)@.metrics
                }),
                ..old(self)@
            }),
    {
        keep_alive_clients(&mut self.clients, self.options.client_timeout_seconds, now);
        let left: usize = count_clients(&self.clients);
        proof {
            assert(self@.clients.dom().subset_of(old(self)@.clients.dom()));
            vstd::set_lib::lemma_len_subset(self@.clients.dom(), old(self)@.clients.dom());
        }
        while self.metrics.connections_active > left as u64
            invariant
                self.metrics.connections_active >= left,
                clients_in(self.clients) == still_alive(
                    old(self)@.clients,
                    old(self)@.options.client_timeout_seconds,
                    now,
                ),
                self.handler == old(self)@.handler,
                self.options == old(self)@.options,
                self.metrics == (Metrics {
                    connections_active: self.metrics.connections_active,
                    ..old(self)@.metrics
                }),
            decreases self.metrics.connections_active - left,
        {
            self.metrics.dec_connections_active();
        }
    }

    /// Drops the clients that were not written to for longer than the options
    /// allow, by now.
    pub fn check_client_send_time(&mut self)
        requires
            old(self)@.wf(),
        ensures
            final(self)@.wf(),
            exists|time: i64|
                crate::date_time::clock_time(time) && final(self)@.clients
                    == #[trigger] still_alive(
                    old(self)@.clients,
                    old(self)@.options.client_timeout_seconds,
                    time,
                ),
            final(self)@ == (SendersView {
                clients: final(self)@.clients,
                metrics: (Metrics {
                    connections_active: final(self)@.clients.dom().len() as u64,
                    ..old(self)@.metrics
                }),
                ..old(self)@
            }),
    {
        let time: i64 = now();
        self.check_client_send_time_at(time);
    }

    /// Drops a client.
    pub fn remove(&mut self, peer: &str)
        requires
            old(self)@.wf(),
        ensures
            final(self)@.wf(),
            final(self)@ == old(self)@.without_client(peer@),
    {
        if drop_client(&mut self.clients, peer) {
            self.metrics.dec_connections_active();
        } else {
            assert(old(self)@.clients.remove(peer@) =~= old(self)@.clients);
        }
    }

    /// Drops a client that has been turned away, unless it has connected again
    /// over another channel.
    pub fn turn_away(&mut self, peer: &str, sx: u64)
        requires
            old(self)@.wf(),
        ensures
            final(self)@.wf(),
            final(self)@ == old(self)@.turning_away(peer@, sx),
    {
        if let Some(client) = client_named(&self.clients, peer) {
            if client.sx == sx {
                self.remove(peer);
            }
        }
    }

    /// Notes that a client was written to at this time.
    pub fn write_time_at(&mut self, peer: &str, now: i64)
        requires
            old(self)@.wf(),
        ensures
            final(self)@.wf(),
            final(self)@ == old(self)@.touched(peer@, now),
    {
        match client_named(&self.clients, peer) {
            Some(client) => {
                let mut touched: ClientSender = client;
                touched.write_time_at(now);
                put_client(&mut self.clients, peer.to_owned(), touched);
                assert(old(self)@.clients.dom().insert(peer@) =~= old(self)@.clients.dom());
            },
            None => {},
        }
    }

    /// Notes that a client was written to now.
    pub fn write_time(&mut self, peer: &str)
        requires
            old(self)@.wf(),
        ensures
            final(self)@.wf(),
            exists|time: i64|
                crate::date_time::clock_time(time) && final(self)@ == #[trigger] old(self)@.touched(
                    peer@,
                    time,
                ),
    {
        let time: i64 = now();
        self.write_time_at(peer, time);
    }

    /// Begins to send a message to a client: the number of the channel to
    /// offer it to. Nothing where there is no such client.
    pub fn begin_send(&self, peer: &str) -> (sx: Option<u64>)
        ensures
            sx == self@.channel_of(peer@),
    {
        match client_named(&self.clients, peer) {
            Some(client) => Some(client.sx),
            None => None,
        }
    }

    /// Counts what came of sending a message; returns whether the client has
    /// it.
    pub fn count_send(&mut self, outcome: SendOutcome) -> (sent: bool)
        requires
            old(self)@.wf(),
        ensures
            final(self)@.wf(),
            sent == (outcome == SendOutcome::Sent),
            final(self)@ == old(self)@.counting(outcome),
    {
        match outcome {
            SendOutcome::NoClient => false,
            SendOutcome::Sent => {
                self.metrics.inc_messages_sent();
                true
            },
            SendOutcome::Failed => {
                self.metrics.inc_send_errors();
                false
            },
        }
    }

    /// Settles what came of sending a message at this time: a client that has
    /// it was just written to, any other is dropped.
    pub fn finish_send(&mut self, peer: &str, outcome: SendOutcome, now: i64) -> (sent: bool)
        requires
            old(self)@.wf(),
        ensures
            final(self)@.wf(),
            sent == (outcome == SendOutcome::Sent),
            final(self)@ == old(self)@.after_send(peer@, outcome, now),
    {
        let sent: bool = self.count_send(outcome);
        if sent {
            self.write_time_at(peer, now);
        } else {
            self.remove(peer);
        }
        sent
    }

    /// Whether a client is connected.
    pub fn is_active(&self, peer: &str) -> (r: bool)
        ensures
            r == self@.clients.contains_key(peer@),
    {
        client_named(&self.clients, peer).is_some()
    }

    /// How many clients are connected.
    pub fn len(&self) -> (n: usize)
        ensures
            n == self@.clients.dom().len(),
    {
        count_clients(&self.clients)
    }

    /// Whether no client is connected.
    pub fn is_empty(&self) -> (r: bool)
        ensures
            r == (self@.clients == no_clients()),
    {
        let n: usize = count_clients(&self.clients);
        proof {
            if n == 0 {
                assert(self@.clients.dom() =~= Set::empty());
                assert(self@.clients =~= no_clients());
            }
        }
        n == 0
    }

    /// The names of all clients, each once, in no particular order.
    pub fn peers(&self) -> (names: Vec<String>)
        ensures
            names_all(names@, self@.clients.dom()),
    {
        client_names(&self.clients)
    }

    /// The names of all clients that are on the list or, if `listed` is false,
    /// of all that are not.
    fn peers_by_list(&self, list: &[String], listed: bool) -> (names: Vec<String>)
        ensures
            names_all(
                names@,
                self@.clients.dom().filter(|name: Seq<char>| lists(list@, name) == listed),
            ),
    {
        let all: Vec<String> = client_names(&self.clients);
        let ghost wanted = |name: Seq<char>| lists(list@, name) == listed;
        let mut names: Vec<String> = Vec::new();
        let mut i: usize = 0;
        while i < all.len()
            invariant
                i <= all@.len(),
                names_all(all@, self@.clients.dom()),
                wanted == (|name: Seq<char>| lists(list@, name) == listed),
                forall|k: int|
                    0 <= k < names@.len() ==> wanted((#[trigger] names@[k])@) && lists(
                        all@.take(i as int),
                        names@[k]@,
                    ),
                forall|j: int|
                    0 <= j < i && wanted((#[trigger] all@[j])@) ==> lists(names@, all@[j]@),
                forall|k: int, l: int|
                    0 <= k < l < names@.len() ==> (#[trigger] names@[k])@ != (#[trigger] names@[l])@,
            decreases all@.len() - i,
        {
            let ghost names_before = names@;
            assert forall|name: Seq<char>| #[trigger] lists(all@.take(i as int), name) implies lists(
                all@.take(i + 1),
                name,
            ) by {
                let j = choose|j: int|
                    0 <= j < all@.take(i as int).len() && (#[trigger] all@.take(i as int)[j])@
                        == name;
                assert(all@.take(i + 1)[j]@ == name);
            }
            if is_listed(list, all[i].as_str()) == listed {
                proof {
                    if lists(all@.take(i as int), all@[i as int]@) {
                        let j = choose|j: int|
                            0 <= j < all@.take(i as int).len() && (#[trigger] all@.take(
                                i as int,
                            )[j])@ == all@[i as int]@;
                        assert(all@[j]@ == all@[i as int]@);
                    }
                }
                names.push(all[i].clone());
                proof {
                    assert(all@.take(i + 1)[i as int]@ == all@[i as int]@);
                    assert forall|name: Seq<char>| #[trigger] lists(names_before, name) implies lists(
                        names@,
                        name,
                    ) by {
                        let k = choose|k: int|
                            0 <= k < names_before.len() && (#[trigger] names_before[k])@ == name;
                        assert(names@[k]@ == name);
                    }
                    assert(names@[names_before.len() as int]@ == all@[i as int]@);
                    assert(lists(names@, all@[i as int]@));
                }
            }
            i = i + 1;
        }
        proof {
            let chosen = self@.clients.dom().filter(wanted);
            assert forall|k: int| 0 <= k < names@.len() implies chosen.contains(
                (#[trigger] names@[k])@,
            ) by {
                let j = choose|j: int|
                    0 <= j < all@.take(i as int).len() && (#[trigger] all@.take(i as int)[j])@
                        == names@[k]@;
                assert(self@.clients.dom().contains(all@[j]@));
            }
            assert forall|name: Seq<char>| #[trigger] chosen.contains(name) implies exists|k: int|
                0 <= k < names@.len() && (#[trigger] names@[k])@ == name by {
                let j = choose|j: int| 0 <= j < all@.len() && (#[trigger] all@[j])@ == name;
                assert(lists(names@, all@[j]@));
            }
        }
        names
    }

    /// The names of all clients that are not on the list.
    pub fn peers_except(&self, valid: &[String]) -> (names: Vec<String>)
        ensures
            names_all(
                names@,
                self@.clients.dom().filter(|name: Seq<char>| lists(valid@, name) == false),
            ),
    {
        self.peers_by_list(valid, false)
    }

    /// The names of all clients that are on the list.
    pub fn peers_in(&self, target: &[String]) -> (names: Vec<String>)
        ensures
            names_all(
                names@,
                self@.clients.dom().filter(|name: Seq<char>| lists(target@, name) == true),
            ),
    {
        self.peers_by_list(target, true)
    }
}

/// What came of sending a message to a client, and when.
pub struct SettledSend {
    pub peer: Seq<char>,
    pub outcome: SendOutcome,
    pub now: i64,
}

impl SendersView {
    /// The number of the channel over which a message to this client goes.
    pub open spec fn channel_of(self, peer: Seq<char>) -> Option<u64> {
        if self.clients.contains_key(peer) {
            Some(self.clients[peer].sx)
        } else {
            None
        }
    }

    /// This state after a message was sent to a client: one that has it was
    /// just written to, any other is dropped.
    pub open spec fn after_send(self, peer: Seq<char>, outcome: SendOutcome, now: i64) -> SendersView {
        if outcome == SendOutcome::Sent {
            self.counting(outcome).touched(peer, now)
        } else {
            self.counting(outcome).without_client(peer)
        }
    }

    /// This state after messages were sent, one after the other.
    pub open spec fn after_sends(self, sends: Seq<SettledSend>) -> SendersView
        decreases sends.len(),
    {
        if sends.len() == 0 {
            self
        } else {
            let last = sends.last();
            self.after_sends(sends.drop_last()).after_send(last.peer, last.outcome, last.now)
        }
    }

    /// This state with what came of sending a message counted.
    pub open spec fn counting(self, outcome: SendOutcome) -> SendersView {
        match outcome {
            SendOutcome::NoClient => self,
            SendOutcome::Sent => SendersView {
                metrics: Metrics {
                    messages_sent: crate::metrics::counted(self.metrics.messages_sent),
                    ..self.metrics
                },
                ..self
            },
            SendOutcome::Failed => SendersView {
                metrics: Metrics {
                    send_errors: crate::metrics::counted(self.metrics.send_errors),
                    ..self.metrics
                },
                ..self
            },
        }
    }
}

impl Default for ClientSenders {
    fn default() -> (senders: Self)
        ensures
            senders@.wf(),
            senders@.clients == no_clients(),
            senders@.handler.places() == 1024,
            senders@.handler.offers() == crate::channel::no_offers::<(Vec<u8>, String)>(),
            senders@.handler.kept() == Seq::<(Vec<u8>, String)>::empty(),
            senders@.handler.room() == 1024,
            senders@.handler.receiver() == Some(senders@.handler.far_end()),
            senders@.options == ServerOptions::defaults(),
            senders@.metrics == Metrics::zero(),
    {
        ClientSenders::new()
    }
}

/// Messages as the application reads them: the bytes, and who they are from.
pub open spec fn as_read(messages: Seq<(Vec<u8>, String)>) -> Seq<(Seq<u8>, Seq<char>)> {
    messages.map_values(|message: (Vec<u8>, String)| (message.0@, message.1@))
}

/// How many messages were dropped.
pub open spec fn dropped_of(routes: Seq<Routed>) -> nat
    decreases routes.len(),
{
    if routes.len() == 0 {
        0
    } else {
        dropped_of(routes.drop_last()) + if routes.last() == Routed::Dropped {
            1nat
        } else {
            0nat
        }
    }
}

/// Whether a server went through these states as these messages of its clients
/// were handed on, one after the other.
pub open spec fn handed_on_in_turn(
    states: Seq<SendersView>,
    messages: Seq<(Seq<u8>, Seq<char>)>,
    routes: Seq<Routed>,
) -> bool {
    &&& states.len() == messages.len() + 1
    &&& routes.len() == messages.len()
    &&& forall|i: int|
        0 <= i < messages.len() ==> states[i].hands_on(
            states[i + 1],
            (#[trigger] messages[i]).0,
            messages[i].1,
            routes[i],
        )
}

/// One message more: it stands behind all others if it is kept, and is counted.
proof fn lemma_one_message_is_handed_on(
    before: SendersView,
    after: SendersView,
    message: (Seq<u8>, Seq<char>),
    routed: Routed,
)
    requires
        before.hands_on(after, message.0, message.1, routed),
    ensures
        as_read(after.handler.kept()) == if crate::channel::is_kept(routed) {
            as_read(before.handler.kept()).push(message)
        } else {
            as_read(before.handler.kept())
        },
        after.metrics.messages_received == crate::metrics::counted(
            before.metrics.messages_received,
        ),
        after.metrics.messages_dropped == if routed == Routed::Dropped {
            crate::metrics::counted(before.metrics.messages_dropped)
        } else {
            before.metrics.messages_dropped
        },
        after.clients == before.clients,
{
    if crate::channel::is_kept(routed) {
        let kept = after.handler.kept();
        assert(kept =~= kept.drop_last().push(kept.last()));
        assert(as_read(kept) =~= as_read(before.handler.kept()).push(message));
    }
}

/// However many messages come, those that are not dropped or lost reach the
/// application in the order in which they came, each once. All are counted as
/// received, and those that were dropped as dropped, until a counter starts
/// again at zero.
pub proof fn lemma_messages_are_handed_on_in_order(
    states: Seq<SendersView>,
    messages: Seq<(Seq<u8>, Seq<char>)>,
    routes: Seq<Routed>,
)
    requires
        handed_on_in_turn(states, messages, routes),
        states[0].metrics.messages_received + messages.len() <= u64::MAX,
        states[0].metrics.messages_dropped + messages.len() <= u64::MAX,
    ensures
        as_read(states.last().handler.kept()) == as_read(states[0].handler.kept())
            + crate::channel::kept_of(messages, routes),
        states.last().metrics.messages_received == states[0].metrics.messages_received
            + messages.len(),
        states.last().metrics.messages_dropped == states[0].metrics.messages_dropped + dropped_of(
            routes,
        ),
        dropped_of(routes) <= messages.len(),
        states.last().clients == states[0].clients,
    decreases messages.len(),
{
    if messages.len() == 0 {
        assert(as_read(states.last().handler.kept()) =~= as_read(states[0].handler.kept())
            + crate::channel::kept_of(messages, routes));
    } else {
        let n = messages.len() - 1;
        let fewer = messages.drop_last();
        let earlier = states.drop_last();
        let some = routes.drop_last();
        assert forall|i: int| 0 <= i < fewer.len() implies earlier[i].hands_on(
            earlier[i + 1],
            (#[trigger] fewer[i]).0,
            fewer[i].1,
            some[i],
        ) by {
            assert(fewer[i] == messages[i]);
        }
        lemma_messages_are_handed_on_in_order(earlier, fewer, some);
        crate::channel::lemma_kept_of_prefix(fewer, some, routes);
        lemma_one_message_is_handed_on(states[n], states[n + 1], messages[n], routes[n]);
        assert(as_read(states.last().handler.kept()) =~= as_read(states[0].handler.kept())
            + crate::channel::kept_of(messages, routes));
    }
}

/// A list splits the clients in two: those on it and those not on it are all
/// of them, and none is both.
pub proof fn lemma_list_splits_the_clients(names: Set<Seq<char>>, list: Seq<String>)
    ensures
        names.filter(|name: Seq<char>| lists(list, name) == true).union(
            names.filter(|name: Seq<char>| lists(list, name) == false),
        ) == names,
        names.filter(|name: Seq<char>| lists(list, name) == true).disjoint(
            names.filter(|name: Seq<char>| lists(list, name) == false),
        ),
{
    let on = names.filter(|name: Seq<char>| lists(list, name) == true);
    let off = names.filter(|name: Seq<char>| lists(list, name) == false);
    assert(on.union(off) =~= names);
}

/// Whether every one of these messages to this client has reached it.
pub open spec fn all_reached(sends: Seq<SettledSend>, peer: Seq<char>) -> bool {
    forall|i: int|
        0 <= i < sends.len() && (#[trigger] sends[i]).peer == peer ==> sends[i].outcome
            == SendOutcome::Sent
}

/// However many messages are sent to whichever clients, a client keeps the
/// channel that it has, unless it is dropped because a message to it failed.
pub proof fn lemma_sends_move_no_channel(
    senders: SendersView,
    sends: Seq<SettledSend>,
    peer: Seq<char>,
)
    ensures
        senders.after_sends(sends).channel_of(peer) == senders.channel_of(peer)
            || senders.after_sends(sends).channel_of(peer) is None,
        all_reached(sends, peer) ==> senders.after_sends(sends).channel_of(peer)
            == senders.channel_of(peer),
    decreases sends.len(),
{
    if sends.len() > 0 {
        let fewer = sends.drop_last();
        lemma_sends_move_no_channel(senders, fewer, peer);
        if all_reached(sends, peer) {
            assert forall|i: int| 0 <= i < fewer.len() && (#[trigger] fewer[i]).peer
                == peer implies fewer[i].outcome == SendOutcome::Sent by {
                assert(fewer[i] == sends[i]);
            }
            assert(sends.last() == sends[sends.len() - 1]);
        }
    }
}

/// A client that comes again while it is connected. Its old channel is owed the
/// disconnect notice first, and may take a fifth of a second to accept it;
/// whatever comes of that, the new channel then takes its place. All later
/// messages to the client go over the new channel, or nowhere once one of them
/// has failed, and never over the old one. All other clients keep their
/// channels, nothing that is on its way to the application is touched, and the
/// client counts as one active connection, as before.
pub proof fn lemma_a_returning_client_takes_its_own_place(
    senders: SendersView,
    peer: Seq<char>,
    replaced: Option<Replaced>,
    sx: u64,
    now: i64,
    sends: Seq<SettledSend>,
    other: Seq<char>,
)
    requires
        senders.wf(),
        senders.clients.contains_key(peer),
        senders.owes(peer, replaced),
        other != peer,
    ensures
        replaced matches Some(told) && Some(told.sx) == senders.channel_of(peer)
            && crate::common::carries(told.message, crate::common::disconnect_bytes(peer))
            && told.wait_millis == 200,
        senders.with_client(peer, sx, now).wf(),
        senders.with_client(peer, sx, now).channel_of(peer) == Some(sx),
        senders.with_client(peer, sx, now).channel_of(other) == senders.channel_of(other),
        senders.with_client(peer, sx, now).clients.dom() == senders.clients.dom(),
        senders.with_client(peer, sx, now).handler == senders.handler,
        senders.with_client(peer, sx, now).metrics.connections_active
            == senders.metrics.connections_active,
        ({
            let later = senders.with_client(peer, sx, now).after_sends(sends);
            &&& later.channel_of(peer) == Some(sx) || later.channel_of(peer) is None
            &&& all_reached(sends, peer) ==> later.channel_of(peer) == Some(sx)
            &&& later.channel_of(other) == senders.channel_of(other) || later.channel_of(
                other,
            ) is None
            &&& all_reached(sends, other) ==> later.channel_of(other) == senders.channel_of(other)
        }),
{
    let joined = senders.with_client(peer, sx, now);
    assert(joined.clients.dom() =~= senders.clients.dom());
    lemma_sends_move_no_channel(joined, sends, peer);
    lemma_sends_move_no_channel(joined, sends, other);
}

/// Connecting a client again does not count it as active once more, and one
/// that comes and goes leaves as many active as there were.
pub proof fn lemma_active_counts_clients(
    senders: SendersView,
    peer: Seq<char>,
    sx: u64,
    now: i64,
    again: u64,
    later: i64,
)
    requires
        senders.wf(),
        senders.metrics.connections_active < u64::MAX,
    ensures
        senders.with_client(peer, sx, now).wf(),
        senders.with_client(peer, sx, now).with_client(peer, again, later).metrics.connections_active
            == senders.with_client(peer, sx, now).metrics.connections_active,
        senders.without_client(peer).wf(),
        !senders.clients.contains_key(peer) ==> senders.with_client(peer, sx, now).without_client(
            peer,
        ).metrics.connections_active == senders.metrics.connections_active,
{
    if senders.clients.contains_key(peer) {
        assert(senders.clients.dom().insert(peer) =~= senders.clients.dom());
    }
}

} // verus!
