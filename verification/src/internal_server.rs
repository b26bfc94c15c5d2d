//! The server: its options, and the rules for its connections.

use crate::channel::Routed;
use crate::client_sender::{ClientSenders, Replaced, SendersView};
use crate::common::get_data_schema;
use crate::schema::{Category, Data, Format, Ping};
use vstd::prelude::*;
use vstd::string::*;
use vstd::utf8::*;

verus! {

/// How a server behaves.
#[derive(Debug, Clone, Copy, PartialEq, Eq, Structural)]
pub struct ServerOptions {
    /// Whether to answer pings with pongs, unless they are handed on
    pub use_ping: bool,
    /// The category under which pings are handed on to the application instead
    /// of being answered, if it is positive
    pub proxy_ping: i16,
    /// Seconds after which a client that was not written to is dropped
    pub client_timeout_seconds: u64,
    /// Seconds between checks for such clients
    pub client_check_interval_secs: u64,
    /// Places in the channel for messages to one client
    pub per_connection_buffer_size: usize,
    /// Places in the channel for received messages
    pub handler_buffer_size: usize,
    /// How many received messages may wait when their channel is full
    pub spillover_buffer_size: usize,
    /// How many connections there may be at once
    pub max_connections: usize,
}

impl ServerOptions {
    /// The options of a server that was told nothing.
    pub open spec fn defaults() -> ServerOptions {
        ServerOptions {
            use_ping: true,
            proxy_ping: -1 as i16,
            client_timeout_seconds: 30,
            client_check_interval_secs: 15,
            per_connection_buffer_size: 8,
            handler_buffer_size: 1024,
            spillover_buffer_size: 1024,
            max_connections: 512,
        }
    }
}

impl Default for ServerOptions {
    fn default() -> (options: Self)
        ensures
            options == ServerOptions::defaults(),
    {
        ServerOptions {
            use_ping: true,
            proxy_ping: -1,
            client_timeout_seconds: 30,
            client_check_interval_secs: 15,
            per_connection_buffer_size: 8,
            handler_buffer_size: 1024,
            spillover_buffer_size: 1024,
            max_connections: 512,
        }
    }
}

/// The connections of a server with these options: those that it is given, or
/// none yet.
pub fn prepare_server(option: ServerOptions, client_senders: Option<ClientSenders>) -> (senders:
    ClientSenders)
    requires
        client_senders is None ==> crate::channel::possible_capacity(option.handler_buffer_size),
        client_senders matches Some(given) ==> given@.wf(),
    ensures
        senders@.wf(),
        match client_senders {
            Some(given) => senders@ == (SendersView { options: option, ..given@ }),
            None => {
                &&& senders@.clients == crate::client_sender::no_clients()
                &&& senders@.handler.places() == option.handler_buffer_size
                &&& senders@.handler.offers() == crate::channel::no_offers::<(Vec<u8>, String)>()
                &&& senders@.handler.kept() == Seq::<(Vec<u8>, String)>::empty()
                &&& senders@.handler.room() == option.spillover_buffer_size
                &&& senders@.handler.receiver() == Some(senders@.handler.far_end())
                &&& senders@.options == option
                &&& senders@.metrics == crate::metrics::Metrics::zero()
            },
        },
{
    let mut senders: ClientSenders = match client_senders {
        Some(given) => given,
        None => ClientSenders::new_with_buffer_size(
            option.handler_buffer_size,
            option.spillover_buffer_size,
        ),
    };
    senders.set_options(option);
    senders
}

/// The seconds between checks for clients that have fallen silent, at least
/// one.
pub fn check_interval(option: &ServerOptions) -> (seconds: u64)
    ensures
        seconds == if option.client_check_interval_secs == 0 {
            1
        } else {
            option.client_check_interval_secs
        },
{
    if option.client_check_interval_secs == 0 {
        1
    } else {
        option.client_check_interval_secs
    }
}

/// How many connections there may be and how many there are.
#[derive(Debug)]
pub struct ConnectionGate {
    max_connections: usize,
    live: usize,
}

/// What is known of a gate.
pub struct GateView {
    /// How many connections there may be at once
    pub cap: nat,
    /// How many connections there are
    pub live: nat,
}

impl GateView {
    /// There are no more connections than there may be.
    pub open spec fn wf(self) -> bool {
        self.live <= self.cap
    }

    /// Whether there is room for another connection.
    pub open spec fn has_room(self) -> bool {
        self.live < self.cap
    }

    /// This gate after a connection has come to it: one that finds no room is
    /// not let in.
    pub open spec fn after_enter(self) -> GateView {
        if self.has_room() {
            GateView { live: self.live + 1, ..self }
        } else {
            self
        }
    }

    /// This gate after a connection has ended.
    pub open spec fn after_leave(self) -> GateView {
        GateView { live: (self.live - 1) as nat, ..self }
    }
}

impl View for ConnectionGate {
    type V = GateView;

    closed spec fn view(&self) -> GateView {
        GateView { cap: self.max_connections as nat, live: self.live as nat }
    }
}

impl ConnectionGate {
    /// No connections yet.
    pub fn new(option: &ServerOptions) -> (gate: Self)
        ensures
            gate@.wf(),
            gate@ == (GateView { cap: option.max_connections as nat, live: 0 }),
    {
        ConnectionGate { max_connections: option.max_connections, live: 0 }
    }

    /// Lets a connection in if there is room for it; one that is not let in is
    /// to be closed, not queued.
    pub fn enter(&mut self) -> (let_in: bool)
        requires
            old(self)@.wf(),
        ensures
            final(self)@.wf(),
            let_in == old(self)@.has_room(),
            final(self)@ == old(self)@.after_enter(),
    {
        if self.live < self.max_connections {
            self.live = self.live + 1;
            true
        } else {
            false
        }
    }

    /// Gives back the place of a connection that has ended.
    pub fn leave(&mut self)
        requires
            old(self)@.wf(),
            old(self)@.live > 0,
        ensures
            final(self)@.wf(),
            final(self)@ == old(self)@.after_leave(),
    {
        self.live = self.live - 1;
    }

    /// How many connections there may be at once.
    pub fn max(&self) -> (n: usize)
        ensures
            n == self@.cap,
    {
        self.max_connections
    }
}

/// Who a new connection belongs to.
pub struct Greeting {
    /// The name of the client
    pub id: String,
    /// Whether it is to be sent a pong
    pub pong: bool,
}

/// The category under which pings are handed on to the application, if they
/// are.
pub open spec fn proxy_category(options: ServerOptions) -> Option<u16> {
    if options.proxy_ping > 0 {
        Some(options.proxy_ping as u16)
    } else {
        None
    }
}

/// Whether the first message of a connection says who its client is: a ping,
/// or what goes for one.
pub open spec fn names_client(options: ServerOptions, first: Seq<u8>) -> bool {
    &&& crate::common::has_category(first)
    &&& Ping::readable(crate::common::body_of(first))
    &&& crate::common::category_of(first) == Category::Ping.number() || proxy_category(options)
        == Some(crate::common::category_of(first))
}

/// Whether the first message of a connection is answered with a pong rather
/// than handed on: it is a ping, pings are answered, and the application has
/// not asked for them.
pub open spec fn answers_pong(options: ServerOptions, first: Seq<u8>) -> bool {
    &&& crate::common::category_of(first) == Category::Ping.number()
    &&& options.use_ping
    &&& proxy_category(options) is None
}

/// The category under which a message is handed on: that of pings, if the
/// application has asked for them, and its own otherwise.
pub open spec fn handed_category(options: ServerOptions, data: Seq<u8>) -> u16 {
    if proxy_category(options) is Some && crate::common::category_of(data)
        == Category::Ping.number() {
        proxy_category(options)->Some_0
    } else {
        crate::common::category_of(data)
    }
}

/// What of a message is handed on to the application: all of it, or with
/// categories its record.
pub open spec fn forwarded_bytes(format: Format, options: ServerOptions, data: Seq<u8>) -> Seq<u8> {
    match format {
        Format::Raw => data,
        Format::Bebop => crate::wire::le16(handed_category(options, data)) + crate::wire::framed(
            crate::common::body_of(data),
        ),
    }
}

/// The category under which a message is handed on.
fn category_for_application(options: &ServerOptions, category: u16) -> (handed: u16)
    ensures
        handed == if proxy_category(*options) is Some && category == Category::Ping.number() {
            proxy_category(*options)->Some_0
        } else {
            category
        },
{
    if options.proxy_ping > 0 && category == Category::Ping.code() {
        options.proxy_ping as u16
    } else {
        category
    }
}

/// Reads the name of the client out of the first message of its connection.
/// Nothing where the message does not say.
fn named_client<'a>(options: &ServerOptions, first: &'a [u8]) -> (named: Option<(&'a str, Data<'a>)>)
    ensures
        named is Some <==> names_client(*options, first@),
        named matches Some((peer, data)) ==> {
            &&& peer@ == Ping::peer_in(crate::common::body_of(first@))
            &&& crate::wire::text_fits(peer@)
            &&& data.category == crate::common::category_of(first@)
            &&& data.datas@ == crate::common::body_of(first@)
        },
{
    let data: Data = match get_data_schema(first) {
        Ok(data) => data,
        Err(_) => {
            return None;
        },
    };
    let is_ping: bool = data.category == Category::Ping.code();
    let is_proxied: bool = options.proxy_ping > 0 && data.category == options.proxy_ping as u16;
    if !is_ping && !is_proxied {
        return None;
    }
    match Ping::deserialize(data.datas) {
        Ok(ping) => {
            proof {
                lemma_named_peer_fits(data.datas@);
            }
            Some((ping.peer, data))
        },
        Err(_) => None,
    }
}

/// The notice that is owed before the first message of a connection takes
/// effect: to the connection that its client has now.
pub fn notice_for_first_message(client_senders: &ClientSenders, first: &[u8]) -> (replaced: Option<
    Replaced,
>)
    requires
        client_senders@.wf(),
    ensures
        names_client(client_senders@.options, first@) ==> client_senders@.owes(
            Ping::peer_in(crate::common::body_of(first@)),
            replaced,
        ),
        !names_client(client_senders@.options, first@) ==> replaced is None,
{
    match named_client(&client_senders.options(), first) {
        Some((peer, _)) => client_senders.notice_owed(peer),
        None => None,
    }
}

/// Learns from the first message of a connection whose it is, and connects
/// that client. A ping that is not answered with a pong is handed on to the
/// application. Nothing happens where the message does not say whose it is.
pub fn get_id_from_first_message(
    client_senders: &mut ClientSenders,
    first: &[u8],
    sx: u64,
    now: i64,
) -> (greeting: Option<Greeting>)
    requires
        old(client_senders)@.wf(),
    ensures
        final(client_senders)@.wf(),
        greeting is Some <==> names_client(old(client_senders)@.options, first@),
        greeting is None ==> final(client_senders)@ == old(client_senders)@,
        greeting matches Some(hello) ==> {
            let options = old(client_senders)@.options;
            let peer = Ping::peer_in(crate::common::body_of(first@));
            let joined = old(client_senders)@.with_client(peer, sx, now);
            &&& hello.id@ == peer
            &&& hello.pong == answers_pong(options, first@)
            &&& if hello.pong || !crate::wire::fits_frame(crate::common::body_of(first@)) {
                final(client_senders)@ == joined
            } else {
                exists|routed: Routed|
                    #[trigger] joined.hands_on(
                        final(client_senders)@,
                        forwarded_bytes(Format::Bebop, options, first@),
                        peer,
                        routed,
                    )
            }
        },
{
    let options: ServerOptions = client_senders.options();
    let (peer, data): (&str, Data) = match named_client(&options, first) {
        Some(named) => named,
        None => {
            return None;
        },
    };
    let id: String = peer.to_owned();
    client_senders.add_at(id.as_str(), sx, now);
    let pong: bool = data.category == Category::Ping.code() && options.use_ping
        && options.proxy_ping <= 0;
    if !pong {
        let category: u16 = category_for_application(&options, data.category);
        let ghost joined = client_senders@;
        let routed = client_senders.send_handle_data(
            Data { category, datas: data.datas },
            id.as_str(),
        );
        assert(routed matches Some(r) ==> joined.hands_on(
            client_senders@,
            forwarded_bytes(Format::Bebop, options, first@),
            id@,
            r,
        ));
    }
    Some(Greeting { id, pong })
}

/// The peer that a ping names is short enough to be named in a message.
proof fn lemma_named_peer_fits(raw: Seq<u8>)
    requires
        Ping::readable(raw),
    ensures
        crate::wire::text_fits(Ping::peer_in(raw)),
{
    decode_utf8_encode_utf8(crate::wire::frame_content(raw));
}

/// What a message of a client leads to.
pub enum ServerReaction {
    /// Nothing
    Ignored,
    /// A pong to the peer that the ping names
    Pong(String),
    /// The end of the connection
    Close,
    /// The middlewares are asked, and if none objects it is handed on
    Consult,
}

/// Whether a message is a ping that the server answers.
pub open spec fn is_answered_ping(options: ServerOptions, data: Seq<u8>) -> bool {
    &&& crate::common::is_category(data, Category::Ping)
    &&& options.use_ping
    &&& proxy_category(options) is None
    &&& Ping::readable(crate::common::body_of(data))
}

/// Whether this is what a message of a client leads to.
pub open spec fn reacts(
    format: Format,
    options: ServerOptions,
    data: Seq<u8>,
    reaction: ServerReaction,
) -> bool {
    if format == Format::Raw {
        reaction is Consult
    } else if !crate::common::has_category(data) {
        reaction is Ignored
    } else if is_answered_ping(options, data) {
        reaction matches ServerReaction::Pong(peer) && peer@ == Ping::peer_in(
            crate::common::body_of(data),
        )
    } else if crate::common::is_category(data, Category::Disconnect) {
        reaction is Close
    } else {
        reaction is Consult
    }
}

/// Decides what a message of a client leads to.
pub fn on_client_message(format: Format, data: &[u8], options: &ServerOptions) -> (reaction:
    ServerReaction)
    ensures
        reacts(format, *options, data@, reaction),
{
    if format == Format::Raw {
        return ServerReaction::Consult;
    }
    let schema: Data = match get_data_schema(data) {
        Ok(schema) => schema,
        Err(_) => {
            return ServerReaction::Ignored;
        },
    };
    if schema.category == Category::Ping.code() && options.use_ping && options.proxy_ping <= 0 {
        if let Ok(ping) = Ping::deserialize(schema.datas) {
            return ServerReaction::Pong(ping.peer.to_owned());
        }
    }
    if schema.category == Category::Disconnect.code() {
        return ServerReaction::Close;
    }
    ServerReaction::Consult
}

/// Whether a message can be handed on to the application.
pub open spec fn forwardable(format: Format, data: Seq<u8>) -> bool {
    format == Format::Raw || (crate::common::has_category(data) && crate::wire::fits_frame(
        crate::common::body_of(data),
    ))
}

/// Hands a message of a client on to the application.
pub fn forward(
    client_senders: &mut ClientSenders,
    format: Format,
    data: Vec<u8>,
    id: &str,
) -> (routed: Option<Routed>)
    requires
        old(client_senders)@.wf(),
    ensures
        final(client_senders)@.wf(),
        routed is Some <==> forwardable(format, data@),
        routed matches Some(r) ==> old(client_senders)@.hands_on(
            final(client_senders)@,
            forwarded_bytes(format, old(client_senders)@.options, data@),
            id@,
            r,
        ),
        routed is None ==> final(client_senders)@ == old(client_senders)@,
{
    match format {
        Format::Raw => Some(client_senders.send_handle_message(data, id)),
        Format::Bebop => match get_data_schema(data.as_slice()) {
            Ok(schema) => {
                let category: u16 = category_for_application(
                    &client_senders.options(),
                    schema.category,
                );
                client_senders.send_handle_data(Data { category, datas: schema.datas }, id)
            },
            Err(_) => None,
        },
    }
}

/// A client that names itself with a ping is connected under that name. It is
/// answered with a pong if pings are answered and not handed on.
pub proof fn lemma_a_ping_connects_its_peer(options: ServerOptions, peer: Seq<char>)
    requires
        crate::wire::text_fits(peer),
    ensures
        names_client(options, crate::common::ping_bytes(peer)),
        Ping::peer_in(crate::common::body_of(crate::common::ping_bytes(peer))) == peer,
        answers_pong(options, crate::common::ping_bytes(peer)) == (options.use_ping
            && proxy_category(options) is None),
{
    crate::common::lemma_ping_names_its_peer(peer);
}

/// Where pings are answered and the application has not asked for them, every
/// ping gets a pong for the peer that it names: the first of a connection and
/// any later one.
pub proof fn lemma_every_ping_is_answered(
    options: ServerOptions,
    peer: Seq<char>,
    reaction: ServerReaction,
)
    requires
        options.use_ping,
        proxy_category(options) is None,
        crate::wire::text_fits(peer),
        reacts(Format::Bebop, options, crate::common::ping_bytes(peer), reaction),
    ensures
        names_client(options, crate::common::ping_bytes(peer)),
        answers_pong(options, crate::common::ping_bytes(peer)),
        reaction matches ServerReaction::Pong(named) && named@ == peer,
{
    lemma_a_ping_connects_its_peer(options, peer);
}

/// Where the application has asked for pings it gets all of them, the first of
/// a connection and any later one, under the category that it has asked for and
/// with the payload unchanged; none is answered.
pub proof fn lemma_proxied_pings_reach_the_application(
    options: ServerOptions,
    peer: Seq<char>,
    reaction: ServerReaction,
)
    requires
        proxy_category(options) is Some,
        crate::wire::text_fits(peer),
        reacts(Format::Bebop, options, crate::common::ping_bytes(peer), reaction),
    ensures
        !answers_pong(options, crate::common::ping_bytes(peer)),
        reaction is Consult,
        forwarded_bytes(Format::Bebop, options, crate::common::ping_bytes(peer))
            == crate::wire::le16(proxy_category(options)->Some_0) + crate::wire::framed(
            crate::wire::framed_text(peer) + crate::wire::le32(0),
        ),
{
    crate::common::lemma_ping_names_its_peer(peer);
    crate::common::lemma_envelope_round_trip(
        Category::Ping.number(),
        crate::wire::framed_text(peer) + crate::wire::le32(0),
    );
}

/// A connection that comes and goes leaves things as they were. One that comes
/// when there is no room changes nothing, and one that leaves makes room for
/// another.
pub proof fn lemma_places_come_back(gate: GateView)
    requires
        gate.wf(),
    ensures
        gate.after_enter().wf(),
        gate.has_room() ==> gate.after_enter().after_leave() == gate,
        !gate.has_room() ==> gate.after_enter() == gate,
        gate.live > 0 ==> gate.after_leave().has_room(),
{
}

} // verus!
