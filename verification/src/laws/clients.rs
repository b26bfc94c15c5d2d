//! The clients of a server.

use crate::channel::Routed;
use crate::client_sender::{ClientSender, ClientSenders, Replaced, SendOutcome};
use crate::schema::Data;
use vstd::prelude::*;
use vstd::utf8::*;

verus! {

/// A client that is connected is found under its name, over its channel and
/// with its time; all others stay as they are. It counts as active once, and
/// every connection counts toward the total.
pub proof fn lemma_a_client_is_connected(
    senders: &mut ClientSenders,
    peer: &str,
    sx: u64,
    now: i64,
    done: (),
)
    requires
        old(senders)@.wf(),
        call_ensures(ClientSenders::add_at, (senders, peer, sx, now), done),
    ensures
        final(senders)@.clients == old(senders)@.clients.insert(
            peer@,
            ClientSender { sx, send_time: now },
        ),
        final(senders)@.handler == old(senders)@.handler,
        final(senders)@.options == old(senders)@.options,
        final(senders)@.metrics.connections_active == final(senders)@.clients.dom().len(),
        old(senders)@.metrics.connections_total < u64::MAX ==> final(
            senders
        )@.metrics.connections_total == old(senders)@.metrics.connections_total + 1,
        final(senders)@.metrics.messages_received == old(senders)@.metrics.messages_received,
        final(senders)@.metrics.messages_dropped == old(senders)@.metrics.messages_dropped,
        final(senders)@.metrics.messages_sent == old(senders)@.metrics.messages_sent,
        final(senders)@.metrics.send_errors == old(senders)@.metrics.send_errors,
{
}

/// A client that is connected already is owed a disconnect notice in its name
/// over the channel that it has, within a fifth of a second; one that is not is
/// owed nothing.
pub proof fn lemma_who_is_owed_a_notice(
    senders: &ClientSenders,
    peer: &str,
    replaced: Option<Replaced>,
    frame: Seq<u8>,
)
    requires
        call_ensures(ClientSenders::notice_owed, (senders, peer), replaced),
        encode_utf8(peer@).len() <= u32::MAX,
        crate::laws::messages::is_length_then(frame, encode_utf8(peer@)),
    ensures
        replaced is Some <==> senders@.clients.contains_key(peer@),
        replaced matches Some(told) ==> {
            &&& told.sx == senders@.clients[peer@].sx
            &&& told.wait_millis == 200
            &&& crate::common::is_binary(told.message)
            &&& crate::common::payload(told.message) == seq![19u8, 39u8] + frame
        },
{
    crate::laws::messages::lemma_own_bytes(peer@, frame);
}

/// Dropping a client takes it out and leaves all others; a client that is turned
/// away is dropped only over its own channel.
pub proof fn lemma_a_client_is_dropped(
    removing: &mut ClientSenders,
    removed: (),
    turning: &mut ClientSenders,
    turned: (),
    peer: &str,
    sx: u64,
)
    requires
        old(removing)@.wf(),
        old(turning)@.wf(),
        call_ensures(ClientSenders::remove, (removing, peer), removed),
        call_ensures(ClientSenders::turn_away, (turning, peer, sx), turned),
    ensures
        final(removing)@.clients == old(removing)@.clients.remove(peer@),
        final(removing)@.metrics.connections_active == final(removing)@.clients.dom().len(),
        final(removing)@.metrics.connections_total == old(removing)@.metrics.connections_total,
        final(removing)@.handler == old(removing)@.handler,
        final(turning)@.clients == if old(turning)@.clients.contains_key(peer@) && old(
            turning
        )@.clients[peer@].sx == sx {
            old(turning)@.clients.remove(peer@)
        } else {
            old(turning)@.clients
        },
        final(turning)@.metrics.connections_active == final(turning)@.clients.dom().len(),
{
    if !old(removing)@.clients.contains_key(peer@) {
        assert(old(removing)@.clients.remove(peer@) =~= old(removing)@.clients);
    }
}

/// A client is dropped for its silence exactly when it was not written to for
/// longer than the options allow; all others keep their channels and times.
pub proof fn lemma_silent_clients_are_dropped(
    senders: &mut ClientSenders,
    now: i64,
    done: (),
    peer: Seq<char>,
)
    requires
        old(senders)@.wf(),
        call_ensures(ClientSenders::check_client_send_time_at, (senders, now), done),
    ensures
        final(senders)@.clients.contains_key(peer) <==> old(senders)@.clients.contains_key(peer)
            && now - old(senders)@.clients[peer].send_time <= old(
            senders
        )@.options.client_timeout_seconds,
        final(senders)@.clients.contains_key(peer) ==> final(senders)@.clients[peer] == old(
            senders
        )@.clients[peer],
        final(senders)@.metrics.connections_active == final(senders)@.clients.dom().len(),
        final(senders)@.handler == old(senders)@.handler,
        final(senders)@.options == old(senders)@.options,
{
}

/// A message to a client goes over the channel that it is connected over.
pub proof fn lemma_a_message_goes_over_the_channel_of_its_client(
    senders: &ClientSenders,
    peer: &str,
    sx: Option<u64>,
    active: bool,
)
    requires
        call_ensures(ClientSenders::begin_send, (senders, peer), sx),
        call_ensures(ClientSenders::is_active, (senders, peer), active),
    ensures
        sx is Some <==> senders@.clients.contains_key(peer@),
        sx matches Some(number) ==> number == senders@.clients[peer@].sx,
        active <==> senders@.clients.contains_key(peer@),
{
}

/// A client that has a message was written to now, and stays; one that could
/// not be sent it is dropped. Both are counted, and no other client is touched.
pub proof fn lemma_what_came_of_a_message_is_settled(
    senders: &mut ClientSenders,
    peer: &str,
    outcome: SendOutcome,
    now: i64,
    sent: bool,
)
    requires
        old(senders)@.wf(),
        call_ensures(ClientSenders::finish_send, (senders, peer, outcome, now), sent),
    ensures
        sent <==> outcome == SendOutcome::Sent,
        !sent ==> final(senders)@.clients == old(senders)@.clients.remove(peer@),
        sent && old(senders)@.clients.contains_key(peer@) ==> final(senders)@.clients == old(
            senders
        )@.clients.insert(
            peer@,
            ClientSender { sx: old(senders)@.clients[peer@].sx, send_time: now },
        ),
        sent && !old(senders)@.clients.contains_key(peer@) ==> final(senders)@.clients == old(
            senders
        )@.clients,
        final(senders)@.metrics.connections_active == final(senders)@.clients.dom().len(),
        final(senders)@.handler == old(senders)@.handler,
        sent && old(senders)@.metrics.messages_sent < u64::MAX ==> final(
            senders
        )@.metrics.messages_sent == old(senders)@.metrics.messages_sent + 1,
        !sent ==> final(senders)@.metrics.messages_sent == old(senders)@.metrics.messages_sent,
        outcome == SendOutcome::Failed && old(senders)@.metrics.send_errors < u64::MAX ==> final(
            senders
        )@.metrics.send_errors == old(senders)@.metrics.send_errors + 1,
        outcome != SendOutcome::Failed ==> final(senders)@.metrics.send_errors == old(
            senders
        )@.metrics.send_errors,
{
    if !old(senders)@.clients.contains_key(peer@) {
        assert(old(senders)@.clients.remove(peer@) =~= old(senders)@.clients);
    }
}

/// Writing to a client notes the time and nothing else.
pub proof fn lemma_writing_notes_the_time(
    senders: &mut ClientSenders,
    peer: &str,
    now: i64,
    done: (),
)
    requires
        old(senders)@.wf(),
        call_ensures(ClientSenders::write_time_at, (senders, peer, now), done),
    ensures
        old(senders)@.clients.contains_key(peer@) ==> final(senders)@.clients == old(
            senders
        )@.clients.insert(
            peer@,
            ClientSender { sx: old(senders)@.clients[peer@].sx, send_time: now },
        ),
        !old(senders)@.clients.contains_key(peer@) ==> final(senders)@.clients == old(
            senders
        )@.clients,
        final(senders)@.metrics == old(senders)@.metrics,
        final(senders)@.handler == old(senders)@.handler,
{
}

/// As many clients are counted as there are names, and all of them are named,
/// each once.
pub proof fn lemma_all_clients_are_named_once(
    senders: &ClientSenders,
    names: Vec<String>,
    n: usize,
    none: bool,
    peer: Seq<char>,
)
    requires
        call_ensures(ClientSenders::peers, (senders,), names),
        call_ensures(ClientSenders::len, (senders,), n),
        call_ensures(ClientSenders::is_empty, (senders,), none),
    ensures
        senders@.clients.contains_key(peer) <==> exists|i: int|
            0 <= i < names@.len() && (#[trigger] names@[i])@ == peer,
        forall|i: int, j: int|
            0 <= i < j < names@.len() ==> (#[trigger] names@[i])@ != (#[trigger] names@[j])@,
        n == senders@.clients.dom().len(),
        none ==> !senders@.clients.contains_key(peer),
        senders@.clients.contains_key(peer) ==> !none,
{
    if senders@.clients.contains_key(peer) {
        assert(senders@.clients.dom().contains(peer));
    }
}

/// Whether a name is on a list.
pub open spec fn on_list(list: Seq<String>, name: Seq<char>) -> bool {
    exists|i: int| 0 <= i < list.len() && (#[trigger] list[i])@ == name
}

/// Those on a list and those off it: a client is among the first exactly if its
/// name is on the list, and among the others exactly if it is not.
pub proof fn lemma_clients_by_a_list(
    senders: &ClientSenders,
    list: &[String],
    on: Vec<String>,
    off: Vec<String>,
    peer: Seq<char>,
)
    requires
        call_ensures(ClientSenders::peers_in, (senders, list), on),
        call_ensures(ClientSenders::peers_except, (senders, list), off),
    ensures
        on_list(on@, peer) <==> senders@.clients.contains_key(peer) && on_list(list@, peer),
        on_list(off@, peer) <==> senders@.clients.contains_key(peer) && !on_list(list@, peer),
        forall|i: int, j: int|
            0 <= i < j < on@.len() ==> (#[trigger] on@[i])@ != (#[trigger] on@[j])@,
        forall|i: int, j: int|
            0 <= i < j < off@.len() ==> (#[trigger] off@[i])@ != (#[trigger] off@[j])@,
{
    let listed = senders@.clients.dom().filter(
        |name: Seq<char>| crate::client_sender::lists(list@, name) == true,
    );
    let unlisted = senders@.clients.dom().filter(
        |name: Seq<char>| crate::client_sender::lists(list@, name) == false,
    );
    assert(listed.contains(peer) <==> senders@.clients.contains_key(peer) && on_list(list@, peer));
    assert(unlisted.contains(peer) <==> senders@.clients.contains_key(peer) && !on_list(
        list@,
        peer,
    ));
    if on_list(on@, peer) {
        let i = choose|i: int| 0 <= i < on@.len() && (#[trigger] on@[i])@ == peer;
        assert(listed.contains(on@[i]@));
    }
    if on_list(off@, peer) {
        let i = choose|i: int| 0 <= i < off@.len() && (#[trigger] off@[i])@ == peer;
        assert(unlisted.contains(off@[i]@));
    }
}

/// A message of a client is handed on as a record of its category and payload;
/// one that fits in no record goes nowhere. It is counted as received, and as
/// dropped only where there was no room for it.
pub proof fn lemma_a_message_of_a_client_is_handed_on(
    senders: &mut ClientSenders,
    data: Data<'_>,
    peer: &str,
    routed: Option<Routed>,
)
    requires
        call_ensures(ClientSenders::send_handle_data, (senders, data, peer), routed),
    ensures
        routed is Some <==> data.datas@.len() <= u32::MAX,
        routed is None ==> final(senders)@ == old(senders)@,
        routed matches Some(r) ==> {
            &&& crate::laws::server::brings_record(
                old(senders)@,
                final(senders)@,
                r,
                data.category as int,
                data.datas@,
                peer@,
            )
            &&& final(senders)@.clients == old(senders)@.clients
            &&& r != Routed::Dropped ==> final(senders)@.metrics.messages_dropped == old(
                senders
            )@.metrics.messages_dropped
            &&& r == Routed::Dropped && old(senders)@.metrics.messages_dropped < u64::MAX
                ==> final(senders)@.metrics.messages_dropped == old(
                senders
            )@.metrics.messages_dropped + 1
        },
{
    if data.datas@.len() <= u32::MAX {
        crate::laws::session::lemma_a_record_is_category_and_frame(data.category, data.datas@);
    }
}

/// Bytes of a client are handed on as they are.
pub proof fn lemma_bytes_of_a_client_are_handed_on(
    senders: &mut ClientSenders,
    data: Vec<u8>,
    peer: &str,
    routed: Routed,
)
    requires
        call_ensures(ClientSenders::send_handle_message, (senders, data, peer), routed),
    ensures
        routed == Routed::Delivered || routed == Routed::Buffered ==> {
            &&& final(senders)@.handler.kept().len() == old(senders)@.handler.kept().len() + 1
            &&& final(senders)@.handler.kept().drop_last() == old(senders)@.handler.kept()
            &&& final(senders)@.handler.kept().last().0@ == data@
            &&& final(senders)@.handler.kept().last().1@ == peer@
        },
        routed == Routed::Dropped || routed == Routed::Lost ==> final(senders)@.handler.kept()
            == old(senders)@.handler.kept(),
{
}

/// A client is alive until it has not been written to for longer than the
/// timeout.
pub proof fn lemma_when_a_client_is_alive(
    client: &ClientSender,
    timeout_seconds: u64,
    now: i64,
    alive: bool,
)
    requires
        call_ensures(ClientSender::is_alive, (client, timeout_seconds, now), alive),
    ensures
        alive <==> now - client.send_time <= timeout_seconds,
{
}

/// What a server starts with: no clients, nothing handed on, all counters at
/// zero, and the room that was asked for, or room for 1024 messages in the
/// channel and as many beside it.
pub proof fn lemma_a_server_starts_without_clients(
    plain: ClientSenders,
    places: usize,
    room: usize,
    sized: ClientSenders,
)
    requires
        call_ensures(ClientSenders::new, (), plain),
        call_ensures(ClientSenders::new_with_buffer_size, (places, room), sized),
    ensures
        plain@.clients.dom() == Set::<Seq<char>>::empty(),
        plain@.handler.places() == 1024,
        plain@.handler.room() == 1024,
        plain@.handler.kept().len() == 0,
        plain@.handler.receiver() is Some,
        plain@.metrics.connections_active == 0,
        plain@.metrics.connections_total == 0,
        plain@.metrics.messages_received == 0,
        plain@.metrics.messages_sent == 0,
        sized@.clients.dom() == Set::<Seq<char>>::empty(),
        sized@.handler.places() == places,
        sized@.handler.room() == room,
        sized@.handler.kept().len() == 0,
        sized@.handler.receiver() is Some,
        sized@.metrics == plain@.metrics,
        sized@.options == plain@.options,
{
}

/// A message that was sent is counted as sent, one that failed as an error, and
/// one to nobody not at all; no client is touched.
pub proof fn lemma_what_came_of_a_message_is_counted(
    senders: &mut ClientSenders,
    outcome: SendOutcome,
    sent: bool,
)
    requires
        call_ensures(ClientSenders::count_send, (senders, outcome), sent),
    ensures
        sent <==> outcome == SendOutcome::Sent,
        outcome == SendOutcome::NoClient ==> final(senders)@.metrics == old(senders)@.metrics,
        outcome == SendOutcome::Sent ==> crate::laws::memory::one_more(
            old(senders)@.metrics.messages_sent,
            final(senders)@.metrics.messages_sent,
        ),
        outcome != SendOutcome::Sent ==> final(senders)@.metrics.messages_sent == old(
            senders
        )@.metrics.messages_sent,
        outcome == SendOutcome::Failed ==> crate::laws::memory::one_more(
            old(senders)@.metrics.send_errors,
            final(senders)@.metrics.send_errors,
        ),
        outcome != SendOutcome::Failed ==> final(senders)@.metrics.send_errors == old(
            senders
        )@.metrics.send_errors,
        final(senders)@.clients == old(senders)@.clients,
        final(senders)@.handler == old(senders)@.handler,
        final(senders)@.options == old(senders)@.options,
{
}

} // verus!
