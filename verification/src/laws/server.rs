//! What a server does with the messages and the connections of its clients.

use crate::channel::Routed;
use crate::client_sender::{ClientSenders, Replaced, SendersView};
use crate::error::AtomicWebsocketError;
use crate::internal_server::{
    check_interval, forward, get_id_from_first_message, notice_for_first_message,
    on_client_message, prepare_server, ConnectionGate,
    Greeting, ServerOptions, ServerReaction,
};
use crate::schema::{Category, Format, Ping};
use crate::server_connection::{
    ConnectionAction, ConnectionEvent, ConnectionPhase, ServerConnection,
};
use vstd::prelude::*;
use vstd::utf8::*;

verus! {

/// Whether `after` is `before` with a record of this category and payload, from
/// this client, brought on its way behind all others, or with nothing changed
/// where there was no room for it or nobody listens.
pub open spec fn brings_record(
    before: SendersView,
    after: SendersView,
    routed: Routed,
    category: int,
    payload: Seq<u8>,
    peer: Seq<char>,
) -> bool {
    &&& routed == Routed::Delivered || routed == Routed::Buffered ==> {
        &&& after.handler.kept().len() == before.handler.kept().len() + 1
        &&& after.handler.kept().drop_last() == before.handler.kept()
        &&& crate::laws::session::is_record_of(after.handler.kept().last().0@, category, payload)
        &&& after.handler.kept().last().1@ == peer
    }
    &&& routed == Routed::Dropped || routed == Routed::Lost ==> after.handler.kept()
        == before.handler.kept()
    &&& before.metrics.messages_received < u64::MAX ==> after.metrics.messages_received
        == before.metrics.messages_received + 1
}

/// A message that is no ping is handed on with its own category and payload,
/// also where pings go under a category of the application's.
pub proof fn lemma_a_message_keeps_its_own_category(
    senders: &mut ClientSenders,
    data: Vec<u8>,
    id: &str,
    routed: Option<Routed>,
)
    requires
        call_ensures(forward, (senders, Format::Bebop, data, id), routed),
        2 <= data@.len() <= u32::MAX,
        data@[0] + 256 * data@[1] != 10000,
    ensures
        routed matches Some(r) && brings_record(
            old(senders)@,
            final(senders)@,
            r,
            data@[0] + 256 * data@[1],
            data@.subrange(2, data@.len() as int),
            id@,
        ),
        final(senders)@.clients == old(senders)@.clients,
{
    crate::laws::messages::lemma_category_and_payload_of_bytes(data@, Category::Ping);
    crate::laws::session::lemma_a_record_is_category_and_frame(
        crate::common::category_of(data@),
        crate::common::body_of(data@),
    );
}

/// A ping that is handed on goes under the category that the application has
/// asked for, if it has, and under its own otherwise, with its own payload.
pub proof fn lemma_a_ping_goes_under_the_category_asked_for(
    senders: &mut ClientSenders,
    data: Vec<u8>,
    id: &str,
    routed: Option<Routed>,
)
    requires
        call_ensures(forward, (senders, Format::Bebop, data, id), routed),
        2 <= data@.len() <= u32::MAX,
        data@[0] + 256 * data@[1] == 10000,
    ensures
        routed matches Some(r) && brings_record(
            old(senders)@,
            final(senders)@,
            r,
            if old(senders)@.options.proxy_ping > 0 {
                old(senders)@.options.proxy_ping as int
            } else {
                10000
            },
            data@.subrange(2, data@.len() as int),
            id@,
        ),
        final(senders)@.clients == old(senders)@.clients,
{
    crate::laws::messages::lemma_category_and_payload_of_bytes(data@, Category::Ping);
    let proxy = old(senders)@.options.proxy_ping;
    if proxy > 0 {
        assert(proxy as u16 as int == proxy as int);
        crate::laws::session::lemma_a_record_is_category_and_frame(proxy as u16, crate::common::body_of(data@));
    } else {
        crate::laws::session::lemma_a_record_is_category_and_frame(10000, crate::common::body_of(data@));
    }
}

/// What has no category is not handed on as a record; without categories
/// everything is handed on as it is.
pub proof fn lemma_bare_messages_are_handed_on_as_they_are(
    senders: &mut ClientSenders,
    format: Format,
    data: Vec<u8>,
    id: &str,
    routed: Option<Routed>,
)
    requires
        call_ensures(forward, (senders, format, data, id), routed),
    ensures
        format == Format::Bebop && data@.len() < 2 ==> routed is None && final(senders)@ == old(
            senders
        )@,
        format == Format::Raw ==> routed is Some,
        format == Format::Raw && (routed == Some(Routed::Delivered) || routed == Some(
            Routed::Buffered,
        )) ==> {
            &&& final(senders)@.handler.kept().drop_last() == old(senders)@.handler.kept()
            &&& final(senders)@.handler.kept().len() == old(senders)@.handler.kept().len() + 1
            &&& final(senders)@.handler.kept().last().0@ == data@
            &&& final(senders)@.handler.kept().last().1@ == id@
        },
{
}

/// What a message of a client leads to: the end of the connection if it is a
/// disconnect notice, a pong if it is a readable ping that the server answers,
/// nothing if it has no category, and otherwise the middlewares are asked.
pub proof fn lemma_what_a_message_of_a_client_leads_to(
    format: Format,
    data: &[u8],
    options: &ServerOptions,
    reaction: ServerReaction,
    body: &[u8],
    read: Result<Ping<'_>, AtomicWebsocketError>,
)
    requires
        call_ensures(on_client_message, (format, data, options), reaction),
        data@.len() >= 2 ==> body@ == data@.subrange(2, data@.len() as int),
        call_ensures(Ping::deserialize, (body,), read),
    ensures
        format == Format::Raw ==> reaction is Consult,
        format == Format::Bebop && data@.len() < 2 ==> reaction is Ignored,
        format == Format::Bebop && data@.len() >= 2 ==> {
            let category = data@[0] + 256 * data@[1];
            let answered = category == 10000 && options.use_ping && options.proxy_ping <= 0
                && read is Ok;
            &&& reaction is Close <==> category == 10003
            &&& reaction is Pong <==> answered
            &&& reaction is Consult <==> category != 10003 && !answered
            &&& reaction matches ServerReaction::Pong(peer) ==> read matches Ok(ping) && peer@
                == ping.peer@
        },
{
    crate::laws::messages::lemma_category_and_payload_of_bytes(data@, Category::Ping);
    crate::laws::messages::lemma_category_and_payload_of_bytes(data@, Category::Disconnect);
}

/// A first message names its client if it is a readable ping, or goes under the
/// category for pings of the application and reads as one. That client is then
/// connected over this channel. A ping gets a pong if pings are answered and
/// the application has not asked for them; anything else is handed on.
pub proof fn lemma_what_a_first_message_leads_to(
    senders: &mut ClientSenders,
    first: &[u8],
    sx: u64,
    now: i64,
    greeting: Option<Greeting>,
    body: &[u8],
    read: Result<Ping<'_>, AtomicWebsocketError>,
    number: int,
)
    requires
        call_ensures(get_id_from_first_message, (senders, first, sx, now), greeting),
        first@.len() <= u32::MAX,
        first@.len() >= 2 ==> body@ == first@.subrange(2, first@.len() as int),
        call_ensures(Ping::deserialize, (body,), read),
        number == if old(senders)@.options.proxy_ping > 0 {
            old(senders)@.options.proxy_ping as int
        } else {
            10000
        },
    ensures
        first@.len() < 2 ==> greeting is None,
        greeting is None ==> final(senders)@ == old(senders)@,
        first@.len() >= 2 ==> {
            let category = first@[0] + 256 * first@[1];
            let options = old(senders)@.options;
            let proxied = options.proxy_ping > 0;
            &&& greeting is Some <==> read is Ok && (category == 10000 || proxied && category
                == options.proxy_ping)
            &&& greeting matches Some(hello) ==> {
                &&& read matches Ok(ping) && hello.id@ == ping.peer@
                &&& hello.pong <==> category == 10000 && options.use_ping && !proxied
                &&& final(senders)@.clients == old(senders)@.clients.insert(
                    hello.id@,
                    crate::client_sender::ClientSender { sx, send_time: now },
                )
                &&& hello.pong ==> final(senders)@.handler == old(senders)@.handler
                &&& !hello.pong ==> exists|routed: Routed|
                    #[trigger] brings_record(
                        old(senders)@,
                        final(senders)@,
                        routed,
                        number,
                        first@.subrange(2, first@.len() as int),
                        hello.id@,
                    )
            }
        },
{
    crate::laws::messages::lemma_category_and_payload_of_bytes(first@, Category::Ping);
    if first@.len() >= 2 {
        let options = old(senders)@.options;
        let proxied = options.proxy_ping > 0;
        if proxied {
            assert(options.proxy_ping as u16 as int == options.proxy_ping as int);
        }
        if let Some(hello) = greeting {
            let category: u16 = if proxied {
                options.proxy_ping as u16
            } else {
                10000
            };
            crate::laws::session::lemma_a_record_is_category_and_frame(category, crate::common::body_of(first@));
            let joined = old(senders)@.with_client(hello.id@, sx, now);
            if !hello.pong {
                let routed = choose|routed: Routed|
                    #[trigger] joined.hands_on(
                        final(senders)@,
                        crate::internal_server::forwarded_bytes(Format::Bebop, options, first@),
                        hello.id@,
                        routed,
                    );
                assert(brings_record(
                    old(senders)@,
                    final(senders)@,
                    routed,
                    number,
                    first@.subrange(2, first@.len() as int),
                    hello.id@,
                ));
            }
        }
    }
}

/// There are never more connections than the options allow: one is let in where
/// there is room, counts until it leaves, and one that finds no room changes
/// nothing.
pub proof fn lemma_a_gate_lets_in_as_many_as_it_may(
    options: &ServerOptions,
    fresh: ConnectionGate,
    entered: &mut ConnectionGate,
    let_in: bool,
    left: &mut ConnectionGate,
    done: (),
)
    requires
        call_ensures(ConnectionGate::new, (options,), fresh),
        call_ensures(ConnectionGate::enter, (entered,), let_in),
        call_ensures(ConnectionGate::leave, (left,), done),
        old(left)@.live > 0,
    ensures
        fresh@.cap == options.max_connections,
        fresh@.live == 0,
        let_in <==> old(entered)@.live < old(entered)@.cap,
        final(entered)@.cap == old(entered)@.cap,
        final(entered)@.live == if let_in {
            old(entered)@.live + 1
        } else {
            old(entered)@.live
        },
        final(left)@.cap == old(left)@.cap,
        final(left)@.live == old(left)@.live - 1,
{
}

/// Silent clients are looked for as often as the options say, but not more than
/// once a second.
pub proof fn lemma_how_often_clients_are_checked(options: &ServerOptions, seconds: u64)
    requires
        call_ensures(check_interval, (options,), seconds),
    ensures
        options.client_check_interval_secs >= 1 ==> seconds == options.client_check_interval_secs,
        options.client_check_interval_secs == 0 ==> seconds == 1,
{
}

/// Whether this is the question, with so many middlewares of which so many have
/// agreed that the client may connect; all of them: the next message is read.
pub open spec fn asks_connect(action: ConnectionAction, agreed: int, count: int) -> bool {
    if agreed < count {
        action matches ConnectionAction::AskConnect(i) && i == agreed
    } else {
        action is Read
    }
}

/// Whether this is the question, with so many middlewares of which so many have
/// agreed to this message; all of them: it is handed on.
pub open spec fn asks_message(
    action: ConnectionAction,
    agreed: int,
    count: int,
    data: Seq<u8>,
) -> bool {
    if agreed < count {
        action matches ConnectionAction::AskMessage(i) && i == agreed
    } else {
        action matches ConnectionAction::Forward(given) && given@ == data
    }
}

/// Whether this is the next to be told, with so many middlewares of which so
/// many have been told that the client has disconnected; after all of them the
/// notice is passed to the writer.
pub open spec fn tells(action: ConnectionAction, told: int, count: int) -> bool {
    if told < count {
        action matches ConnectionAction::TellDisconnect(i) && i == told
    } else {
        action is Notice
    }
}

/// A connection begins with what its first message says. One that names nobody
/// is over. One that names a client is sent a pong if it is owed one, and then
/// the middlewares are asked, in order, whether it may connect.
pub proof fn lemma_how_a_connection_begins(
    connection: &mut ServerConnection,
    event: ConnectionEvent,
    action: ConnectionAction,
)
    requires
        call_ensures(ServerConnection::next, (connection, event), action),
    ensures
        final(connection)@.count == old(connection)@.count,
        final(connection)@.format == old(connection)@.format,
        final(connection)@.options == old(connection)@.options,
        final(connection)@.peer == old(connection)@.peer,
        old(connection)@.phase is First ==> match event {
            ConnectionEvent::First(None) => action is Notice && final(connection)@.phase is Over,
            ConnectionEvent::First(Some(hello)) => {
                &&& final(connection)@.id == hello.id@
                &&& hello.pong ==> (action matches ConnectionAction::Pong(peer) && peer@
                    == hello.id@ && final(connection)@.phase is Greeting)
                &&& !hello.pong ==> asks_connect(action, 0, old(connection)@.count as int)
            },
            _ => true,
        },
        old(connection)@.phase is Greeting && event is Told ==> asks_connect(
            action,
            0,
            old(connection)@.count as int,
        ),
        !(old(connection)@.phase is First) ==> final(connection)@.id == old(connection)@.id,
{
}

/// A client is let in by the agreement of all middlewares, each asked once and
/// in order; the first refusal ends the connection.
pub proof fn lemma_how_a_client_is_let_in(
    connection: &mut ServerConnection,
    i: usize,
    agrees: bool,
    action: ConnectionAction,
)
    requires
        call_ensures(
            ServerConnection::next,
            (connection, ConnectionEvent::Answer(agrees)),
            action,
        ),
        old(connection)@.phase == ConnectionPhase::AskingConnect(i),
    ensures
        agrees ==> asks_connect(action, i + 1, old(connection)@.count as int),
        agrees && i + 1 < old(connection)@.count ==> final(connection)@.phase
            == ConnectionPhase::AskingConnect((i + 1) as usize),
        agrees && i + 1 >= old(connection)@.count ==> final(connection)@.phase is Reading,
        !agrees ==> action is Notice && final(connection)@.phase is Over && final(
            connection
        )@.refused,
{
}

/// What a message over a connection leads to, by its bytes: a disconnect notice
/// to the end, a ping that the server answers to a pong, anything else with a
/// category to the middlewares, with all of its bytes, and to the application
/// where there are none.
pub proof fn lemma_what_a_message_over_a_connection_leads_to(
    connection: &mut ServerConnection,
    data: Vec<u8>,
    action: ConnectionAction,
    body: &[u8],
    read: Result<Ping<'_>, AtomicWebsocketError>,
)
    requires
        call_ensures(ServerConnection::next, (connection, ConnectionEvent::Message(data)), action),
        old(connection)@.phase is Reading,
        data@.len() >= 2 ==> body@ == data@.subrange(2, data@.len() as int),
        call_ensures(Ping::deserialize, (body,), read),
    ensures
        old(connection)@.format == Format::Raw ==> asks_message(
            action,
            0,
            old(connection)@.count as int,
            data@,
        ) && final(connection)@.pending == data@,
        old(connection)@.format == Format::Bebop && data@.len() < 2 ==> action is Read,
        old(connection)@.format == Format::Bebop && data@.len() >= 2 ==> {
            let category = data@[0] + 256 * data@[1];
            let options = old(connection)@.options;
            if category == 10003 {
                tells(action, 0, old(connection)@.count as int)
            } else if category == 10000 && options.use_ping && options.proxy_ping <= 0 && read
                is Ok {
                action matches ConnectionAction::Pong(peer) && read matches Ok(ping) && peer@
                    == ping.peer@
            } else {
                asks_message(action, 0, old(connection)@.count as int, data@) && final(
                    connection
                )@.pending == data@
            }
        },
{
    crate::laws::messages::lemma_category_and_payload_of_bytes(data@, Category::Ping);
    crate::laws::messages::lemma_category_and_payload_of_bytes(data@, Category::Disconnect);
}

/// A message is handed on by the agreement of all middlewares, each asked once
/// and in order; after the first objection the next message is read. What was
/// handed on is the message that came.
pub proof fn lemma_how_a_message_is_let_through(
    connection: &mut ServerConnection,
    i: usize,
    agrees: bool,
    action: ConnectionAction,
)
    requires
        call_ensures(
            ServerConnection::next,
            (connection, ConnectionEvent::Answer(agrees)),
            action,
        ),
        old(connection)@.phase == ConnectionPhase::AskingMessage(i),
    ensures
        agrees ==> asks_message(
            action,
            i + 1,
            old(connection)@.count as int,
            old(connection)@.pending,
        ),
        agrees && i + 1 < old(connection)@.count ==> final(connection)@.phase
            == ConnectionPhase::AskingMessage((i + 1) as usize),
        final(connection)@.pending == old(connection)@.pending,
        !agrees ==> action is Read && final(connection)@.phase is Reading,
{
}

/// After a pong or a message that was handed on the next message is read. When
/// the stream ends, and after each middleware that was told, the next one is
/// told, and then the connection is over.
pub proof fn lemma_how_a_connection_goes_on_and_ends(
    connection: &mut ServerConnection,
    event: ConnectionEvent,
    action: ConnectionAction,
)
    requires
        call_ensures(ServerConnection::next, (connection, event), action),
    ensures
        (old(connection)@.phase is Answering || old(connection)@.phase is Forwarding) && event
            is Told ==> action is Read && final(connection)@.phase is Reading,
        old(connection)@.phase is Reading && event is Ended ==> tells(
            action,
            0,
            old(connection)@.count as int,
        ),
        event is Told ==> (old(connection)@.phase matches ConnectionPhase::Telling(i) ==> tells(
            action,
            i + 1,
            old(connection)@.count as int,
        )),
        action is Read ==> final(connection)@.phase is Reading,
        action matches ConnectionAction::AskConnect(i) ==> final(connection)@.phase
            == ConnectionPhase::AskingConnect(i),
        action matches ConnectionAction::AskMessage(i) ==> final(connection)@.phase
            == ConnectionPhase::AskingMessage(i),
        action matches ConnectionAction::TellDisconnect(i) ==> final(connection)@.phase
            == ConnectionPhase::Telling(i),
        action is Forward ==> final(connection)@.phase is Forwarding,
        action is Notice ==> final(connection)@.phase is Over,
{
}

/// The notice that ends a connection names the address of the other end; it is
/// empty where messages have no category.
pub proof fn lemma_the_notice_names_the_other_end(
    connection: &mut ServerConnection,
    event: ConnectionEvent,
    action: ConnectionAction,
    frame: Seq<u8>,
)
    requires
        call_ensures(ServerConnection::next, (connection, event), action),
        encode_utf8(old(connection)@.peer).len() <= u32::MAX,
        crate::laws::messages::is_length_then(frame, encode_utf8(old(connection)@.peer)),
    ensures
        action matches ConnectionAction::Notice(notice) ==> crate::common::is_binary(notice)
            && crate::common::payload(notice) == match old(connection)@.format {
            Format::Bebop => seq![19u8, 39u8] + frame,
            Format::Raw => Seq::empty(),
        },
{
    crate::laws::messages::lemma_own_bytes(old(connection)@.peer, frame);
}

/// A new connection waits for its first message, belongs to nobody yet and has
/// not been refused; it tells whose it is and what is asked about as it stands.
pub proof fn lemma_a_new_connection_waits_for_its_first_message(
    format: Format,
    options: ServerOptions,
    count: usize,
    peer: &str,
    fresh: ServerConnection,
    connection: &ServerConnection,
    id: &str,
    message: &[u8],
    refused: bool,
)
    requires
        call_ensures(ServerConnection::new, (format, options, count, peer), fresh),
        call_ensures(ServerConnection::id, (connection,), id),
        call_ensures(ServerConnection::message, (connection,), message),
        call_ensures(ServerConnection::is_refused, (connection,), refused),
    ensures
        fresh@.format == format,
        fresh@.options == options,
        fresh@.count == count,
        fresh@.peer == peer@,
        fresh@.phase == ConnectionPhase::First,
        fresh@.id.len() == 0,
        fresh@.pending.len() == 0,
        !fresh@.refused,
        id@ == connection@.id,
        message@ == connection@.pending,
        refused <==> connection@.refused,
{
}

/// The times that are allowed: two seconds to send a message to a client, a
/// fifth of a second for a notice, one second to flush, ten to dial, and two
/// between the rounds of a scan.
pub proof fn lemma_the_times_that_are_allowed()
    ensures
        crate::client_sender::SEND_TIMEOUT_SECONDS == 2,
        crate::client_sender::NOTICE_TIMEOUT_MILLIS == 200,
        crate::get_internal_websocket::FLUSH_TIMEOUT_SECONDS == 1,
        crate::scan_manager::DIAL_TIMEOUT_SECONDS == 10,
        crate::scan_manager::SCAN_PERIOD_SECONDS == 2,
{
}

/// A server takes the clients that it is given, or none, under its options.
pub proof fn lemma_a_server_is_prepared(
    options: ServerOptions,
    given: Option<ClientSenders>,
    senders: ClientSenders,
)
    requires
        call_ensures(prepare_server, (options, given), senders),
    ensures
        senders@.options == options,
        (given matches Some(before) ==> senders@.clients == before@.clients && senders@.handler
            == before@.handler && senders@.metrics == before@.metrics),
        given is None ==> {
            &&& senders@.clients.dom() == Set::<Seq<char>>::empty()
            &&& senders@.handler.places() == options.handler_buffer_size
            &&& senders@.handler.room() == options.spillover_buffer_size
            &&& senders@.handler.kept().len() == 0
            &&& senders@.handler.receiver() is Some
            &&& senders@.metrics.connections_active == 0
            &&& senders@.metrics.connections_total == 0
        },
{
}

/// The first message of a connection calls for a notice exactly when it names a
/// client that is connected already: over that client's channel and in its
/// name.
pub proof fn lemma_a_first_message_calls_for_a_notice(
    senders: &ClientSenders,
    first: &[u8],
    replaced: Option<Replaced>,
    body: &[u8],
    read: Result<Ping<'_>, AtomicWebsocketError>,
    frame: Seq<u8>,
)
    requires
        call_ensures(notice_for_first_message, (senders, first), replaced),
        first@.len() >= 2 ==> body@ == first@.subrange(2, first@.len() as int),
        call_ensures(Ping::deserialize, (body,), read),
        (read matches Ok(ping) ==> encode_utf8(ping.peer@).len() <= u32::MAX
            && crate::laws::messages::is_length_then(frame, encode_utf8(ping.peer@))),
    ensures
        first@.len() < 2 ==> replaced is None,
        first@.len() >= 2 ==> {
            let category = first@[0] + 256 * first@[1];
            let options = senders@.options;
            &&& replaced is Some <==> read is Ok && (category == 10000 || options.proxy_ping > 0
                && category == options.proxy_ping) && senders@.clients.contains_key(
                read->Ok_0.peer@,
            )
            &&& replaced matches Some(told) ==> {
                &&& told.sx == senders@.clients[read->Ok_0.peer@].sx
                &&& told.wait_millis == 200
                &&& crate::common::is_binary(told.message)
                &&& crate::common::payload(told.message) == seq![19u8, 39u8] + frame
            }
        },
{
    crate::laws::messages::lemma_category_and_payload_of_bytes(first@, Category::Ping);
    if senders@.options.proxy_ping > 0 {
        assert(senders@.options.proxy_ping as u16 as int == senders@.options.proxy_ping as int);
    }
    if let Ok(ping) = read {
        crate::laws::messages::lemma_own_bytes(ping.peer@, frame);
    }
}

} // verus!
