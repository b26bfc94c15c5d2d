//! A client's connection: what its messages lead to, what is written over it,
//! and what is left of it when it ends.

use crate::channel::Routed;
use crate::connection_store::ConnectionStore;
use crate::get_internal_websocket::{
    after_write, Reaction, TryConnectGuard, WebsocketSession, WriterStep,
};
use crate::schema::{Category, Format};
use crate::server_sender::{
    parse_port, Farewell, SendRetry, SendStep, SenderStatus, SenderView, ServerSender,
};
use tokio::sync::mpsc::Sender;
use tokio_tungstenite::tungstenite::Message;
use vstd::prelude::*;
use vstd::utf8::*;

verus! {

/// Whether these bytes are a record: this category in two bytes, the length of
/// the payload in four, low bytes first, and the payload.
pub open spec fn is_record_of(record: Seq<u8>, category: int, payload: Seq<u8>) -> bool {
    &&& record.len() == 6 + payload.len()
    &&& record[0] + 256 * record[1] == category
    &&& record[2] + 256 * record[3] + 65536 * record[4] + 16777216 * record[5] == payload.len()
    &&& record.subrange(6, record.len() as int) == payload
}

/// A record is its category and its framed payload.
pub proof fn lemma_a_record_is_category_and_frame(category: u16, payload: Seq<u8>)
    requires
        payload.len() <= u32::MAX,
    ensures
        is_record_of(
            crate::wire::le16(category) + crate::wire::framed(payload),
            category as int,
            payload,
        ),
{
    let record = crate::wire::le16(category) + crate::wire::framed(payload);
    crate::laws::messages::lemma_four_bytes(payload.len() as u32, Seq::empty());
    assert(record.subrange(6, record.len() as int) =~= payload);
}

/// Every message from the server that is neither a pong nor a disconnect notice
/// is handed on to the application, whatever the session has seen before: as a
/// record of its own category and payload, behind all others, unless there is
/// no room for it or nobody listens.
pub proof fn lemma_an_application_message_is_always_handed_on(
    session: &mut WebsocketSession,
    sender: &mut ServerSender,
    data: Vec<u8>,
    now: i64,
    reaction: Reaction,
)
    requires
        call_ensures(WebsocketSession::on_message, (session, sender, data, now), reaction),
        old(session)@.format == Format::Bebop,
        2 <= data@.len() <= u32::MAX,
        data@[0] + 256 * data@[1] != 10001,
        data@[0] + 256 * data@[1] != 10003,
    ensures
        reaction matches Reaction::Forwarded(routed) && {
            let before = old(sender)@.handler.kept();
            let after = final(sender)@.handler.kept();
            &&& routed == Routed::Delivered || routed == Routed::Buffered ==> {
                &&& after.len() == before.len() + 1
                &&& after.drop_last() == before
                &&& is_record_of(
                    after.last()@,
                    data@[0] + 256 * data@[1],
                    data@.subrange(2, data@.len() as int),
                )
            }
            &&& routed == Routed::Dropped || routed == Routed::Lost ==> after == before
        },
{
    crate::laws::messages::lemma_category_and_payload_of_bytes(data@, Category::Pong);
    crate::laws::messages::lemma_category_and_payload_of_bytes(data@, Category::Disconnect);
    lemma_a_record_is_category_and_frame(
        crate::common::category_of(data@),
        crate::common::body_of(data@),
    );
}

/// A pong is not handed on. It is followed by a ping after the time between
/// health checks, unless one is due already.
pub proof fn lemma_a_pong_is_followed_by_one_ping(
    session: &mut WebsocketSession,
    sender: &mut ServerSender,
    data: Vec<u8>,
    now: i64,
    reaction: Reaction,
)
    requires
        call_ensures(WebsocketSession::on_message, (session, sender, data, now), reaction),
        old(session)@.format == Format::Bebop,
        data@.len() >= 2,
        data@[0] + 256 * data@[1] == 10001,
    ensures
        final(session)@.is_wait_ping,
        old(session)@.is_wait_ping ==> reaction is Ignored,
        !old(session)@.is_wait_ping ==> reaction == Reaction::PingAfter(
            old(session)@.retry_seconds,
        ),
        final(sender)@.handler == old(sender)@.handler,
        final(sender)@.metrics == old(sender)@.metrics,
{
    crate::laws::messages::lemma_category_and_payload_of_bytes(data@, Category::Pong);
}

/// A disconnect notice ends the session: nothing is handed on, and the writer
/// is passed a notice for the host of the server.
pub proof fn lemma_a_disconnect_notice_ends_the_session(
    session: &mut WebsocketSession,
    sender: &mut ServerSender,
    data: Vec<u8>,
    now: i64,
    reaction: Reaction,
    url: &str,
    host: String,
    frame: Seq<u8>,
)
    requires
        call_ensures(WebsocketSession::on_message, (session, sender, data, now), reaction),
        old(session)@.format == Format::Bebop,
        data@.len() >= 2,
        data@[0] + 256 * data@[1] == 10003,
        url@ == old(session)@.server_ip,
        call_ensures(crate::get_internal_websocket::url_host, (url,), host),
        encode_utf8(host@).len() <= u32::MAX,
        crate::laws::messages::is_length_then(frame, encode_utf8(host@)),
    ensures
        reaction matches Reaction::Close(notice) && crate::common::is_binary(notice)
            && crate::common::payload(notice) == seq![19u8, 39u8] + frame,
        final(sender)@.handler == old(sender)@.handler,
        final(sender)@.metrics == old(sender)@.metrics,
{
    crate::laws::messages::lemma_category_and_payload_of_bytes(data@, Category::Pong);
    crate::laws::messages::lemma_category_and_payload_of_bytes(data@, Category::Disconnect);
    crate::laws::messages::lemma_own_bytes(host@, frame);
}

/// What is too short for a category is passed over.
pub proof fn lemma_a_message_without_a_category_is_passed_over(
    session: &mut WebsocketSession,
    sender: &mut ServerSender,
    data: Vec<u8>,
    now: i64,
    reaction: Reaction,
)
    requires
        call_ensures(WebsocketSession::on_message, (session, sender, data, now), reaction),
        old(session)@.format == Format::Bebop,
        data@.len() < 2,
    ensures
        reaction is Ignored,
        final(session)@ == old(session)@,
        final(sender)@.handler == old(sender)@.handler,
        final(sender)@.statuses == old(sender)@.statuses,
{
}

/// Without categories every message is handed on as it is.
pub proof fn lemma_a_bare_message_is_always_handed_on(
    session: &mut WebsocketSession,
    sender: &mut ServerSender,
    data: Vec<u8>,
    now: i64,
    reaction: Reaction,
)
    requires
        call_ensures(WebsocketSession::on_message, (session, sender, data, now), reaction),
        old(session)@.format == Format::Raw,
    ensures
        reaction matches Reaction::Forwarded(routed) && {
            let before = old(sender)@.handler.kept();
            let after = final(sender)@.handler.kept();
            &&& routed == Routed::Delivered || routed == Routed::Buffered ==> {
                &&& after.len() == before.len() + 1
                &&& after.drop_last() == before
                &&& after.last()@ == data@
            }
            &&& routed == Routed::Dropped || routed == Routed::Lost ==> after == before
        },
        final(session)@ == old(session)@,
        final(sender)@.statuses == old(sender)@.statuses,
{
}

/// The first message with a category reports that the client is connected, and
/// none after it does. A ping that is due stays due, and only a pong makes one
/// due.
pub proof fn lemma_the_first_message_reports_connected(
    session: &mut WebsocketSession,
    sender: &mut ServerSender,
    data: Vec<u8>,
    now: i64,
    reaction: Reaction,
)
    requires
        call_ensures(WebsocketSession::on_message, (session, sender, data, now), reaction),
        old(session)@.format == Format::Bebop,
        data@.len() >= 2,
    ensures
        !final(session)@.is_first,
        final(sender)@.statuses == if old(session)@.is_first {
            old(sender)@.statuses.push(SenderStatus::Connected)
        } else {
            old(sender)@.statuses
        },
        old(session)@.is_wait_ping ==> final(session)@.is_wait_ping,
        data@[0] + 256 * data@[1] != 10001 ==> final(session)@.is_wait_ping == old(
            session
        )@.is_wait_ping,
        final(session)@.id == old(session)@.id,
        final(session)@.server_ip == old(session)@.server_ip,
        final(session)@.retry_seconds == old(session)@.retry_seconds,
{
    crate::laws::messages::lemma_category_and_payload_of_bytes(data@, Category::Pong);
}

/// Whatever comes, the server has been heard now, and its address, its channel
/// and the claims stay as they are.
pub proof fn lemma_any_message_is_a_sign_of_life(
    session: &mut WebsocketSession,
    sender: &mut ServerSender,
    data: Vec<u8>,
    now: i64,
    reaction: Reaction,
)
    requires
        call_ensures(WebsocketSession::on_message, (session, sender, data, now), reaction),
    ensures
        final(sender)@.received == now,
        final(sender)@.server_ip == old(sender)@.server_ip,
        final(sender)@.sx == old(sender)@.sx,
        final(sender)@.is_try_connect == old(sender)@.is_try_connect,
        final(sender)@.is_scanning == old(sender)@.is_scanning,
        final(sender)@.registered == old(sender)@.registered,
        final(sender)@.options == old(sender)@.options,
{
}

/// The ping that has become due names the client, and another one may be
/// planned after it.
pub proof fn lemma_the_ping_that_is_due_names_the_client(
    session: &mut WebsocketSession,
    ping: Message,
    frame: Seq<u8>,
)
    requires
        call_ensures(WebsocketSession::ping_due, (session,), ping),
        encode_utf8(old(session)@.id).len() <= u32::MAX,
        crate::laws::messages::is_length_then(frame, encode_utf8(old(session)@.id)),
    ensures
        crate::common::is_binary(ping),
        crate::common::payload(ping) == seq![16u8, 39u8] + frame + seq![0u8, 0u8, 0u8, 0u8],
        !final(session)@.is_wait_ping,
        final(session)@.is_first == old(session)@.is_first,
{
    crate::laws::messages::lemma_own_bytes(old(session)@.id, frame);
}

/// A connection goes on after every message that was written, of whatever
/// category and payload, but a disconnect notice. A write that failed ends it,
/// and so does a message without a category where messages have one.
pub proof fn lemma_only_a_disconnect_notice_ends_the_writer(
    format: Format,
    bytes: &[u8],
    written: bool,
    step: WriterStep,
)
    requires
        call_ensures(after_write, (format, bytes, written), step),
    ensures
        !written ==> step == WriterStep::Close,
        written && format == Format::Raw ==> step == WriterStep::Continue,
        written && format == Format::Bebop && bytes@.len() < 2 ==> step == WriterStep::Close,
        written && format == Format::Bebop && bytes@.len() >= 2 ==> {
            &&& step == WriterStep::Close <==> bytes@[0] + 256 * bytes@[1] == 10003
            &&& step == WriterStep::Continue <==> bytes@[0] + 256 * bytes@[1] != 10003
        },
{
    crate::laws::messages::lemma_category_and_payload_of_bytes(bytes@, Category::Disconnect);
}

/// Each change to a client's connection changes one thing and leaves all others
/// as they are.
pub proof fn lemma_each_change_changes_one_thing(sender: SenderView, status: SenderStatus)
    ensures
        sender.reporting(status) == (SenderView {
            statuses: sender.statuses.push(status),
            ..sender
        }),
        sender.claimed() == (SenderView { is_try_connect: true, ..sender }),
        sender.unclaimed() == (SenderView { is_try_connect: false, ..sender }),
        sender.scanning() == (SenderView { is_scanning: true, ..sender }),
        sender.not_scanning() == (SenderView { is_scanning: false, ..sender }),
        sender.without_ip().server_ip.len() == 0,
        sender.server_ip.len() > 0 ==> sender.without_ip() == (SenderView {
            sx: None,
            server_ip: Seq::empty(),
            ..sender
        }),
        sender.server_ip.len() == 0 ==> sender.without_ip() == sender,
        sender.reconnecting().statuses == sender.statuses,
        sender.reconnecting().server_ip == sender.server_ip,
        sender.reconnecting().sx == sender.sx,
        sender.reconnecting().handler == sender.handler,
        sender.metrics.reconnections < u64::MAX ==> sender.reconnecting().metrics.reconnections
            == sender.metrics.reconnections + 1,
{
}

/// One claim on the attempt to connect is given out at a time, and another once
/// it has come back.
pub proof fn lemma_one_claim_at_a_time(
    sender: &mut ServerSender,
    guard: Option<TryConnectGuard>,
)
    requires
        call_ensures(TryConnectGuard::try_acquire, (sender,), guard),
    ensures
        guard is Some <==> !old(sender)@.is_try_connect,
        final(sender)@.is_try_connect,
        final(sender)@.statuses == old(sender)@.statuses,
        final(sender)@.server_ip == old(sender)@.server_ip,
        final(sender)@.sx == old(sender)@.sx,
{
}

/// A new connection takes the place of the one before, which is told so in the
/// name of the address that it was made to.
pub proof fn lemma_a_new_connection_replaces_the_one_before(
    sender: &mut ServerSender,
    sx: Sender<Message>,
    server_ip: &str,
    farewell: Option<Farewell>,
    frame: Seq<u8>,
)
    requires
        call_ensures(ServerSender::add, (sender, sx, server_ip), farewell),
        encode_utf8(old(sender)@.server_ip).len() <= u32::MAX,
        crate::laws::messages::is_length_then(frame, encode_utf8(old(sender)@.server_ip)),
    ensures
        final(sender)@ == (SenderView { sx: Some(sx), server_ip: server_ip@, ..old(sender)@ }),
        farewell is Some <==> old(sender)@.sx is Some,
        farewell matches Some(said) ==> Some(said.sx) == old(sender)@.sx
            && crate::common::is_binary(said.message) && crate::common::payload(said.message)
            == seq![19u8, 39u8] + frame,
{
    crate::laws::messages::lemma_own_bytes(old(sender)@.server_ip, frame);
}

/// A client that lets go of its address lets go of its connection, and tells it
/// so; one without an address stays as it is.
pub proof fn lemma_letting_go_of_the_address(
    sender: &mut ServerSender,
    farewell: Option<Farewell>,
    frame: Seq<u8>,
)
    requires
        call_ensures(ServerSender::remove_ip, (sender,), farewell),
        encode_utf8(old(sender)@.server_ip).len() <= u32::MAX,
        crate::laws::messages::is_length_then(frame, encode_utf8(old(sender)@.server_ip)),
    ensures
        final(sender)@.server_ip.len() == 0,
        old(sender)@.server_ip.len() > 0 ==> final(sender)@ == (SenderView {
            sx: None,
            server_ip: Seq::empty(),
            ..old(sender)@
        }),
        old(sender)@.server_ip.len() == 0 ==> final(sender)@ == old(sender)@,
        farewell is Some <==> old(sender)@.server_ip.len() > 0 && old(sender)@.sx is Some,
        farewell matches Some(said) ==> Some(said.sx) == old(sender)@.sx
            && crate::common::is_binary(said.message) && crate::common::payload(said.message)
            == seq![19u8, 39u8] + frame,
{
    crate::laws::messages::lemma_own_bytes(old(sender)@.server_ip, frame);
}

/// A message goes to the channel of the connection, and may be sent again once
/// less than there are seconds between health checks: at least once and at most
/// five times.
pub proof fn lemma_how_often_a_message_is_sent_again(
    sender: &ServerSender,
    attempt: Option<(Sender<Message>, SendRetry)>,
)
    requires
        call_ensures(ServerSender::begin_send, (sender,), attempt),
    ensures
        attempt is Some <==> sender@.sx is Some,
        attempt matches Some((sx, retry)) ==> {
            &&& Some(sx) == sender@.sx
            &&& retry.count() == 0
            &&& 1 <= retry.limit() <= 5
            &&& 2 <= sender@.options.retry_seconds <= 6 ==> retry.limit()
                == sender@.options.retry_seconds - 1
            &&& sender@.options.retry_seconds < 2 ==> retry.limit() == 1
            &&& sender@.options.retry_seconds > 6 ==> retry.limit() == 5
        },
{
}

/// A message that was not taken is sent again after a tenth of a second, two,
/// four, eight tenths, and a second. After the last time the loss is reported.
pub proof fn lemma_the_waits_between_attempts_double(
    sender: &mut ServerSender,
    retry: &mut SendRetry,
    taken: bool,
    step: SendStep,
)
    requires
        call_ensures(ServerSender::after_send, (sender, retry, taken), step),
        old(retry).limit() <= 5,
    ensures
        taken <==> step is Delivered,
        taken ==> final(sender)@ == old(sender)@,
        !taken ==> (step is RetryAfter <==> old(retry).count() < old(retry).limit()),
        step matches SendStep::RetryAfter(wait) ==> {
            &&& crate::retry::nanos(wait) == if old(retry).count() == 0 {
                100_000_000int
            } else if old(retry).count() == 1 {
                200_000_000
            } else if old(retry).count() == 2 {
                400_000_000
            } else if old(retry).count() == 3 {
                800_000_000
            } else {
                1_000_000_000
            }
            &&& final(retry).count() == old(retry).count() + 1
            &&& final(sender)@ == old(sender)@
        },
        step is GiveUp ==> final(sender)@.statuses == old(sender)@.statuses.push(
            SenderStatus::Disconnected,
        ),
{
    reveal_with_fuel(crate::retry::kth_wait, 6);
}

/// A message from the server is handed on behind all others, unless there is no
/// room for it or nobody listens. It is counted as received in any case, and as
/// dropped only where there was no room.
pub proof fn lemma_a_message_from_the_server_is_counted(
    sender: &mut ServerSender,
    data: Vec<u8>,
    routed: Routed,
)
    requires
        call_ensures(ServerSender::send_handle_message, (sender, data), routed),
    ensures
        routed == Routed::Delivered || routed == Routed::Buffered ==> {
            &&& final(sender)@.handler.kept().len() == old(sender)@.handler.kept().len() + 1
            &&& final(sender)@.handler.kept().drop_last() == old(sender)@.handler.kept()
            &&& final(sender)@.handler.kept().last()@ == data@
        },
        routed == Routed::Dropped || routed == Routed::Lost ==> final(sender)@.handler.kept()
            == old(sender)@.handler.kept(),
        crate::laws::memory::one_more(
            old(sender)@.metrics.messages_received,
            final(sender)@.metrics.messages_received,
        ),
        routed == Routed::Dropped ==> crate::laws::memory::one_more(
            old(sender)@.metrics.messages_dropped,
            final(sender)@.metrics.messages_dropped,
        ),
        routed != Routed::Dropped ==> final(sender)@.metrics.messages_dropped == old(
            sender
        )@.metrics.messages_dropped,
        final(sender)@ == (SenderView {
            handler: final(sender)@.handler,
            metrics: final(sender)@.metrics,
            ..old(sender)@
        }),
{
}

/// What the session hands on is counted in the same way, and nothing else is
/// counted.
pub proof fn lemma_a_session_counts_what_it_hands_on(
    session: &mut WebsocketSession,
    sender: &mut ServerSender,
    data: Vec<u8>,
    now: i64,
    reaction: Reaction,
)
    requires
        call_ensures(WebsocketSession::on_message, (session, sender, data, now), reaction),
    ensures
        (reaction matches Reaction::Forwarded(routed) ==> {
            &&& crate::laws::memory::one_more(
                old(sender)@.metrics.messages_received,
                final(sender)@.metrics.messages_received,
            )
            &&& routed == Routed::Dropped ==> crate::laws::memory::one_more(
                old(sender)@.metrics.messages_dropped,
                final(sender)@.metrics.messages_dropped,
            )
            &&& routed != Routed::Dropped ==> final(sender)@.metrics.messages_dropped == old(
                sender
            )@.metrics.messages_dropped
        }),
        !(reaction is Forwarded) ==> final(sender)@.metrics == old(sender)@.metrics && final(
            sender
        )@.handler == old(sender)@.handler,
{
}

/// The smaller notes of a client's connection: when the server was heard, the
/// options and address it is given, a status, and the leave to reconnect. Each
/// is noted as it is, and nothing else changes.
pub proof fn lemma_notes_are_taken_as_they_are(
    heard: &mut ServerSender,
    now: i64,
    heard_done: (),
    chosen: &mut ServerSender,
    server_ip: String,
    options: crate::internal_client::ClientOptions,
    chosen_done: (),
    told: &mut ServerSender,
    status: SenderStatus,
    told_done: (),
    free: &mut ServerSender,
    free_done: (),
)
    requires
        call_ensures(ServerSender::write_received_times_at, (heard, now), heard_done),
        call_ensures(ServerSender::set_options, (chosen, server_ip, options), chosen_done),
        call_ensures(ServerSender::send_status, (told, status), told_done),
        call_ensures(ServerSender::regist, (free,), free_done),
    ensures
        final(heard)@ == (SenderView { received: now, ..old(heard)@ }),
        final(chosen)@ == (SenderView { server_ip: server_ip@, options, ..old(chosen)@ }),
        final(told)@ == (SenderView {
            statuses: old(told)@.statuses.push(status),
            ..old(told)@
        }),
        final(free)@ == (SenderView { registered: true, ..old(free)@ }),
{
}

/// A connection that is taken with a store is remembered there with the port
/// of its address; one that is given up is forgotten there.
pub proof fn lemma_the_store_follows_the_connection<S: ConnectionStore>(
    adding: &mut ServerSender,
    store: &mut S,
    sx: Sender<Message>,
    server_ip: &str,
    farewell: Option<Farewell>,
    port: String,
    removing: &mut ServerSender,
    clearing: &mut S,
    failed: &str,
    last: Option<Farewell>,
)
    requires
        call_ensures(ServerSender::add_to_store::<S>, (adding, store, sx, server_ip), farewell),
        call_ensures(parse_port, (server_ip,), port),
        call_ensures(
            ServerSender::remove_ip_if_valid_server_ip::<S>,
            (removing, clearing, failed),
            last,
        ),
    ensures
        final(adding)@ == (SenderView { sx: Some(sx), server_ip: server_ip@, ..old(adding)@ }),
        farewell is Some <==> old(adding)@.sx is Some,
        final(store).connect_info() == old(store).info_after_set(server_ip@, port@),
        final(store).client_id() == old(store).client_id(),
        final(removing)@.server_ip.len() == 0,
        old(removing)@.server_ip.len() > 0 ==> final(removing)@.sx is None && (last is Some
            <==> old(removing)@.sx is Some),
        old(removing)@.server_ip.len() == 0 ==> final(removing)@ == old(removing)@ && last is None,
        final(clearing).connect_info() == old(clearing).info_after_clear(),
        final(clearing).client_id() == old(clearing).client_id(),
{
}

} // verus!
