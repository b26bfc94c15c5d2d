//! The life of one connection on the server, from its first message to the
//! notice that ends it.

use crate::client_sender::SendersView;
use crate::common::make_disconnect_message;
use crate::internal_server::{on_client_message, Greeting, ServerOptions, ServerReaction};
use crate::metrics::Metrics;
use crate::middleware::{ChainStep, MiddlewareChain, MiddlewareResult};
use crate::raw;
use crate::schema::{Category, Format, Ping};
use tokio_tungstenite::tungstenite::Message;
use vstd::prelude::*;

verus! {

/// What has happened on a connection.
pub enum ConnectionEvent {
    /// The first message has been read: whose the connection is, if it says
    First(Option<Greeting>),
    /// The middleware that was asked has answered whether it agrees
    Answer(bool),
    /// A message has come
    Message(Vec<u8>),
    /// What was to be said has been said
    Told,
    /// The stream has ended
    Ended,
}

/// What to do next on a connection.
pub enum ConnectionAction {
    /// Ask this middleware whether the client may connect
    AskConnect(usize),
    /// Read the next message
    Read,
    /// Send a pong to this peer
    Pong(String),
    /// Ask this middleware about the message that has come
    AskMessage(usize),
    /// Hand this message on to the application
    Forward(Vec<u8>),
    /// Tell this middleware that the client has disconnected
    TellDisconnect(usize),
    /// Pass this disconnect notice to the writer: the connection is over
    Notice(Message),
}

/// How far a connection has come.
#[derive(Debug, Clone, Copy, PartialEq, Eq, Structural)]
pub enum ConnectionPhase {
    /// Its first message has not been read
    First,
    /// Its client is being sent the first pong
    Greeting,
    /// This middleware is being asked whether the client may connect
    AskingConnect(usize),
    /// Its next message is being read
    Reading,
    /// A ping is being answered
    Answering,
    /// This middleware is being asked about a message
    AskingMessage(usize),
    /// A message is being handed on
    Forwarding,
    /// This middleware is being told that the client has disconnected
    Telling(usize),
    /// It is over
    Over,
}

/// What is known of a connection.
pub struct ConnectionView {
    pub format: Format,
    pub options: ServerOptions,
    /// The address of the other end
    pub peer: Seq<char>,
    /// How many middlewares there are
    pub count: usize,
    pub phase: ConnectionPhase,
    /// The name of the client
    pub id: Seq<char>,
    /// Who is being sent a pong
    pub ponged: Seq<char>,
    /// The message that the middlewares are asked about
    pub pending: Seq<u8>,
    /// Whether a middleware has refused the client
    pub refused: bool,
}

impl ConnectionView {
    /// Whether this can happen now.
    pub open spec fn awaits(self, event: ConnectionEvent) -> bool {
        match self.phase {
            ConnectionPhase::First => event is First,
            ConnectionPhase::Greeting => event is Told,
            ConnectionPhase::AskingConnect(_) => event is Answer,
            ConnectionPhase::Reading => event is Message || event is Ended,
            ConnectionPhase::Answering => event is Told,
            ConnectionPhase::AskingMessage(_) => event is Answer,
            ConnectionPhase::Forwarding => event is Told,
            ConnectionPhase::Telling(_) => event is Told,
            ConnectionPhase::Over => false,
        }
    }

    /// This connection with the middlewares before `i` in agreement that the
    /// client may connect.
    pub open spec fn asking_connect(self, i: int) -> ConnectionView {
        ConnectionView {
            phase: if i < self.count {
                ConnectionPhase::AskingConnect(i as usize)
            } else {
                ConnectionPhase::Reading
            },
            ..self
        }
    }

    /// This connection with the middlewares before `i` in agreement that the
    /// message may be handed on.
    pub open spec fn asking_message(self, i: int) -> ConnectionView {
        ConnectionView {
            phase: if i < self.count {
                ConnectionPhase::AskingMessage(i as usize)
            } else {
                ConnectionPhase::Forwarding
            },
            ..self
        }
    }

    /// This connection with the middlewares before `i` told that the client
    /// has disconnected.
    pub open spec fn telling(self, i: int) -> ConnectionView {
        ConnectionView {
            phase: if i < self.count {
                ConnectionPhase::Telling(i as usize)
            } else {
                ConnectionPhase::Over
            },
            ..self
        }
    }

    /// This connection in another phase.
    pub open spec fn moved(self, phase: ConnectionPhase) -> ConnectionView {
        ConnectionView { phase, ..self }
    }

    /// This connection after a message.
    pub open spec fn after_message(self, data: Seq<u8>) -> ConnectionView {
        if self.format == Format::Bebop && !crate::common::has_category(data) {
            self
        } else if self.format == Format::Bebop && crate::internal_server::is_answered_ping(
            self.options,
            data,
        ) {
            ConnectionView {
                phase: ConnectionPhase::Answering,
                ponged: Ping::peer_in(crate::common::body_of(data)),
                ..self
            }
        } else if self.format == Format::Bebop && crate::common::is_category(
            data,
            Category::Disconnect,
        ) {
            self.telling(0)
        } else {
            (ConnectionView { pending: data, ..self }).asking_message(0)
        }
    }

    /// This connection after something that can happen now.
    pub open spec fn after(self, event: ConnectionEvent) -> ConnectionView {
        match (self.phase, event) {
            (ConnectionPhase::First, ConnectionEvent::First(None)) => self.moved(
                ConnectionPhase::Over,
            ),
            (ConnectionPhase::First, ConnectionEvent::First(Some(greeting))) => {
                let named = ConnectionView { id: greeting.id@, ..self };
                if greeting.pong {
                    ConnectionView {
                        phase: ConnectionPhase::Greeting,
                        ponged: greeting.id@,
                        ..named
                    }
                } else {
                    named.asking_connect(0)
                }
            },
            (ConnectionPhase::Greeting, _) => self.asking_connect(0),
            (ConnectionPhase::AskingConnect(i), ConnectionEvent::Answer(agrees)) => if agrees {
                self.asking_connect(i + 1)
            } else {
                ConnectionView { phase: ConnectionPhase::Over, refused: true, ..self }
            },
            (ConnectionPhase::Reading, ConnectionEvent::Message(data)) => self.after_message(data@),
            (ConnectionPhase::Reading, _) => self.telling(0),
            (ConnectionPhase::Answering, _) => self.moved(ConnectionPhase::Reading),
            (ConnectionPhase::AskingMessage(i), ConnectionEvent::Answer(agrees)) => if agrees {
                self.asking_message(i + 1)
            } else {
                self.moved(ConnectionPhase::Reading)
            },
            (ConnectionPhase::Forwarding, _) => self.moved(ConnectionPhase::Reading),
            (ConnectionPhase::Telling(i), _) => self.telling(i + 1),
            _ => self,
        }
    }

    /// Whether this is what is to be done in this state.
    pub open spec fn does(self, action: ConnectionAction) -> bool {
        match self.phase {
            ConnectionPhase::First => false,
            ConnectionPhase::Greeting => action matches ConnectionAction::Pong(peer) && peer@
                == self.ponged,
            ConnectionPhase::AskingConnect(i) => action == ConnectionAction::AskConnect(i),
            ConnectionPhase::Reading => action is Read,
            ConnectionPhase::Answering => action matches ConnectionAction::Pong(peer) && peer@
                == self.ponged,
            ConnectionPhase::AskingMessage(i) => action == ConnectionAction::AskMessage(i),
            ConnectionPhase::Forwarding => action matches ConnectionAction::Forward(data) && data@
                == self.pending,
            ConnectionPhase::Telling(i) => action == ConnectionAction::TellDisconnect(i),
            ConnectionPhase::Over => action matches ConnectionAction::Notice(notice)
                && crate::common::carries(notice, self.notice()),
        }
    }

    /// The bytes of the notice that ends this connection.
    pub open spec fn notice(self) -> Seq<u8> {
        match self.format {
            Format::Bebop => crate::common::disconnect_bytes(self.peer),
            Format::Raw => Seq::empty(),
        }
    }

    /// Whether every middleware has allowed this client.
    pub open spec fn accepted(self) -> bool {
        match self.phase {
            ConnectionPhase::Reading => true,
            ConnectionPhase::Answering => true,
            ConnectionPhase::AskingMessage(_) => true,
            ConnectionPhase::Forwarding => true,
            ConnectionPhase::Telling(_) => true,
            _ => false,
        }
    }

    /// This connection after so many things have been said.
    pub open spec fn after_told(self, times: nat) -> ConnectionView
        decreases times,
    {
        if times == 0 {
            self
        } else {
            self.after_told((times - 1) as nat).after(ConnectionEvent::Told)
        }
    }

    /// This connection after so many middlewares have agreed.
    pub open spec fn after_agreement(self, times: nat) -> ConnectionView
        decreases times,
    {
        if times == 0 {
            self
        } else {
            self.after_agreement((times - 1) as nat).after(ConnectionEvent::Answer(true))
        }
    }
}

/// One connection on the server.
pub struct ServerConnection {
    format: Format,
    options: ServerOptions,
    peer: String,
    count: usize,
    chain: MiddlewareChain,
    phase: ConnectionPhase,
    id: String,
    ponged: String,
    pending: Vec<u8>,
    refused: bool,
}

impl View for ServerConnection {
    type V = ConnectionView;

    closed spec fn view(&self) -> ConnectionView {
        ConnectionView {
            format: self.format,
            options: self.options,
            peer: self.peer@,
            count: self.count,
            phase: self.phase,
            id: self.id@,
            ponged: self.ponged@,
            pending: self.pending@,
            refused: self.refused,
        }
    }
}

impl ServerConnection {
    /// The chain stands where the phase says, and the address of the other end
    /// is short enough to be sent.
    pub closed spec fn wf(&self) -> bool {
        &&& crate::wire::text_fits(self.peer@)
        &&& match self.phase {
            ConnectionPhase::AskingConnect(i) => self.chain.count() == self.count
                && self.chain.agreed() == i && i < self.count,
            ConnectionPhase::AskingMessage(i) => self.chain.count() == self.count
                && self.chain.agreed() == i && i < self.count,
            ConnectionPhase::Telling(i) => i < self.count,
            _ => true,
        }
    }

    /// A connection from this address whose first message has not been read,
    /// on a server with these options and so many middlewares.
    pub fn new(format: Format, options: ServerOptions, count: usize, peer: &str) -> (connection:
        Self)
        requires
            crate::wire::text_fits(peer@),
        ensures
            connection.wf(),
            connection@ == (ConnectionView {
                format,
                options,
                peer: peer@,
                count,
                phase: ConnectionPhase::First,
                id: Seq::empty(),
                ponged: Seq::empty(),
                pending: Seq::empty(),
                refused: false,
            }),
    {
        let (chain, _) = MiddlewareChain::start(count);
        ServerConnection {
            format,
            options,
            peer: peer.to_owned(),
            count,
            chain,
            phase: ConnectionPhase::First,
            id: String::new(),
            ponged: String::new(),
            pending: Vec::new(),
            refused: false,
        }
    }

    /// The name of the client, empty until it is known.
    pub fn id(&self) -> (id: &str)
        ensures
            id@ == self@.id,
    {
        self.id.as_str()
    }

    /// The message that the middlewares are asked about.
    pub fn message(&self) -> (data: &[u8])
        ensures
            data@ == self@.pending,
    {
        self.pending.as_slice()
    }

    /// Whether a middleware has refused the client. It is then to be turned
    /// away from the table of clients, where its first message has put it.
    pub fn is_refused(&self) -> (refused: bool)
        ensures
            refused == self@.refused,
    {
        self.refused
    }

    /// Begins to ask whether the client may connect.
    fn ask_connect(&mut self)
        requires
            old(self).wf(),
        ensures
            final(self).wf(),
            final(self)@ == old(self)@.asking_connect(0),
    {
        let (chain, step) = MiddlewareChain::start(self.count);
        self.chain = chain;
        self.phase = match step {
            ChainStep::Ask(i) => ConnectionPhase::AskingConnect(i),
            _ => ConnectionPhase::Reading,
        };
    }

    /// Begins to ask about the message that has come.
    fn ask_message(&mut self)
        requires
            old(self).wf(),
        ensures
            final(self).wf(),
            final(self)@ == old(self)@.asking_message(0),
    {
        let (chain, step) = MiddlewareChain::start(self.count);
        self.chain = chain;
        self.phase = match step {
            ChainStep::Ask(i) => ConnectionPhase::AskingMessage(i),
            _ => ConnectionPhase::Forwarding,
        };
    }

    /// Goes on to tell the middlewares from `i` on that the client has
    /// disconnected.
    fn tell_from(&mut self, i: usize)
        requires
            old(self).wf(),
        ensures
            final(self).wf(),
            final(self)@ == old(self)@.telling(i as int),
    {
        self.phase = if i < self.count {
            ConnectionPhase::Telling(i)
        } else {
            ConnectionPhase::Over
        };
    }

    /// What is to be done in this state.
    fn action(&self) -> (action: ConnectionAction)
        requires
            self.wf(),
            !(self@.phase is First),
        ensures
            self@.does(action),
    {
        match self.phase {
            ConnectionPhase::First => ConnectionAction::Read,
            ConnectionPhase::Greeting => ConnectionAction::Pong(self.ponged.clone()),
            ConnectionPhase::AskingConnect(i) => ConnectionAction::AskConnect(i),
            ConnectionPhase::Reading => ConnectionAction::Read,
            ConnectionPhase::Answering => ConnectionAction::Pong(self.ponged.clone()),
            ConnectionPhase::AskingMessage(i) => ConnectionAction::AskMessage(i),
            ConnectionPhase::Forwarding => ConnectionAction::Forward(
                vstd::slice::slice_to_vec(self.pending.as_slice()),
            ),
            ConnectionPhase::Telling(i) => ConnectionAction::TellDisconnect(i),
            ConnectionPhase::Over => ConnectionAction::Notice(
                match self.format {
                    Format::Bebop => make_disconnect_message(self.peer.as_str()),
                    Format::Raw => raw::make_disconnect_message(self.peer.as_str()),
                },
            ),
        }
    }

    /// Decides what a message leads to.
    fn on_message(&mut self, data: Vec<u8>)
        requires
            old(self).wf(),
            old(self)@.phase is Reading,
        ensures
            final(self).wf(),
            final(self)@ == old(self)@.after_message(data@),
    {
        match on_client_message(self.format, data.as_slice(), &self.options) {
            ServerReaction::Ignored => {},
            ServerReaction::Pong(peer) => {
                self.ponged = peer;
                self.phase = ConnectionPhase::Answering;
            },
            ServerReaction::Close => {
                self.tell_from(0);
            },
            ServerReaction::Consult => {
                self.pending = data;
                self.ask_message();
            },
        }
    }

    /// Takes note of what has happened and says what to do next.
    pub fn next(&mut self, event: ConnectionEvent) -> (action: ConnectionAction)
        requires
            old(self).wf(),
            old(self)@.awaits(event),
        ensures
            final(self).wf(),
            final(self)@ == old(self)@.after(event),
            final(self)@.does(action),
    {
        match event {
            ConnectionEvent::First(greeting) => match greeting {
                Some(greeting) => {
                    self.id = greeting.id;
                    if greeting.pong {
                        self.ponged = self.id.clone();
                        self.phase = ConnectionPhase::Greeting;
                    } else {
                        self.ask_connect();
                    }
                },
                None => {
                    self.phase = ConnectionPhase::Over;
                },
            },
            ConnectionEvent::Answer(agrees) => match self.phase {
                ConnectionPhase::AskingConnect(_) => {
                    self.phase = match self.chain.on_connect_answer(agrees) {
                        ChainStep::Ask(i) => ConnectionPhase::AskingConnect(i),
                        ChainStep::Pass => ConnectionPhase::Reading,
                        ChainStep::Stop => {
                            self.refused = true;
                            ConnectionPhase::Over
                        },
                    };
                },
                _ => {
                    let result: MiddlewareResult = if agrees {
                        MiddlewareResult::Continue
                    } else {
                        MiddlewareResult::Stop
                    };
                    self.phase = match self.chain.on_message_answer(result) {
                        ChainStep::Ask(i) => ConnectionPhase::AskingMessage(i),
                        ChainStep::Pass => ConnectionPhase::Forwarding,
                        ChainStep::Stop => ConnectionPhase::Reading,
                    };
                },
            },
            ConnectionEvent::Message(data) => self.on_message(data),
            ConnectionEvent::Told => match self.phase {
                ConnectionPhase::Greeting => self.ask_connect(),
                ConnectionPhase::Telling(i) => self.tell_from(i + 1),
                _ => {
                    self.phase = ConnectionPhase::Reading;
                },
            },
            ConnectionEvent::Ended => self.tell_from(0),
        }
        self.action()
    }
}

/// A client that a middleware refuses gets the disconnect notice, and that is
/// all that still happens: no message is read, asked about or handed on, and no
/// middleware is told that it has disconnected.
pub proof fn lemma_refusal_ends_the_connection(
    connection: ConnectionView,
    i: usize,
    action: ConnectionAction,
    later: ConnectionEvent,
)
    requires
        connection.phase == ConnectionPhase::AskingConnect(i),
        connection.after(ConnectionEvent::Answer(false)).does(action),
    ensures
        action matches ConnectionAction::Notice(notice) && crate::common::carries(
            notice,
            connection.notice(),
        ),
        !connection.after(ConnectionEvent::Answer(false)).awaits(later),
        connection.after(ConnectionEvent::Answer(false)).refused,
{
}

/// A client that has joined over this channel and is turned away leaves the
/// table as if it had never come, but for the count of all connections.
pub proof fn lemma_a_client_turned_away_leaves_no_entry(
    senders: SendersView,
    peer: Seq<char>,
    sx: u64,
    now: i64,
)
    requires
        senders.wf(),
        !senders.clients.contains_key(peer),
        senders.metrics.connections_active < u64::MAX,
    ensures
        senders.with_client(peer, sx, now).turning_away(peer, sx) == (SendersView {
            metrics: Metrics {
                connections_total: crate::metrics::counted(senders.metrics.connections_total),
                ..senders.metrics
            },
            ..senders
        }),
{
    let joined = senders.with_client(peer, sx, now);
    assert(joined.clients.remove(peer) =~= senders.clients);
}

/// A connection whose first message does not say whose it is gets the
/// disconnect notice, and that is all that still happens.
pub proof fn lemma_nobody_is_not_let_in(
    connection: ConnectionView,
    action: ConnectionAction,
    later: ConnectionEvent,
)
    requires
        connection.phase is First,
        connection.after(ConnectionEvent::First(None)).does(action),
    ensures
        action matches ConnectionAction::Notice(notice) && crate::common::carries(
            notice,
            connection.notice(),
        ),
        !connection.after(ConnectionEvent::First(None)).awaits(later),
{
}

/// The notice that ends a connection makes its writer close it.
pub proof fn lemma_notice_closes(connection: ConnectionView)
    requires
        connection.format == Format::Bebop,
    ensures
        crate::get_internal_websocket::ends_connection(
            Format::Bebop,
            connection.notice(),
            true,
        ),
{
    crate::get_internal_websocket::lemma_disconnect_notice_ends_connection(connection.peer);
}

/// The middlewares are asked in order whether a client may connect, and its
/// messages are read only after the last of them has agreed.
pub proof fn lemma_connect_is_asked_in_order(connection: ConnectionView, k: nat)
    requires
        k <= connection.count,
    ensures
        connection.asking_connect(0).after_agreement(k) == connection.asking_connect(k as int),
    decreases k,
{
    if k > 0 {
        lemma_connect_is_asked_in_order(connection, (k - 1) as nat);
    }
}

/// The middlewares are asked in order about a message, and it is handed on only
/// after the last of them has agreed.
pub proof fn lemma_message_is_asked_in_order(connection: ConnectionView, k: nat)
    requires
        k <= connection.count,
    ensures
        connection.asking_message(0).after_agreement(k) == connection.asking_message(k as int),
    decreases k,
{
    if k > 0 {
        lemma_message_is_asked_in_order(connection, (k - 1) as nat);
    }
}

/// Nothing of a client is read, asked about, handed on or told of before every
/// middleware has allowed it.
pub proof fn lemma_only_accepted_clients_are_heard(
    connection: ConnectionView,
    event: ConnectionEvent,
)
    requires
        connection.awaits(event),
        connection.after(event).accepted(),
    ensures
        connection.accepted() || connection.count == 0 || (event == ConnectionEvent::Answer(true)
            && (connection.phase matches ConnectionPhase::AskingConnect(i) && i + 1
            >= connection.count)),
{
}

/// When an accepted client disconnects, by its notice or by the end of its
/// stream, every middleware is told so, once and in order, and then the
/// connection is over: after `k` of them have been told, the next one is, if
/// there is one left.
pub proof fn lemma_all_middlewares_are_told_once(
    connection: ConnectionView,
    event: ConnectionEvent,
    k: nat,
)
    requires
        connection.phase is Reading,
        event is Ended || (event matches ConnectionEvent::Message(data) && connection.format
            == Format::Bebop && crate::common::is_category(data@, Category::Disconnect)),
        k <= connection.count,
    ensures
        connection.after(event).after_told(k) == connection.telling(k as int),
    decreases k,
{
    if k > 0 {
        lemma_all_middlewares_are_told_once(connection, event, (k - 1) as nat);
    }
}

/// A ping that the server answers is seen by no middleware and not by the
/// application: its peer gets a pong, and the next message is read.
pub proof fn lemma_answered_ping_stays_unseen(
    connection: ConnectionView,
    data: Vec<u8>,
    action: ConnectionAction,
)
    requires
        connection.phase is Reading,
        connection.format == Format::Bebop,
        crate::internal_server::is_answered_ping(connection.options, data@),
        connection.after(ConnectionEvent::Message(data)).does(action),
    ensures
        action matches ConnectionAction::Pong(peer) && peer@ == Ping::peer_in(
            crate::common::body_of(data@),
        ),
        connection.after(ConnectionEvent::Message(data)).after(ConnectionEvent::Told).phase
            is Reading,
{
}

} // verus!
