//! A connection without claims and health checks: it pings a quarter of a
//! minute after every pong, and hands every message on.

use crate::common::make_ping_message;
use crate::connection_store::ConnectionStore;
use crate::schema::{Category, Data};
use crate::server_sender::{Farewell, SenderStatus, SenderView, ServerSender};
use crate::text;
use crate::types::save_key;
use crate::Settings;
use tokio::sync::mpsc::Sender;
use tokio_tungstenite::tungstenite::Message;
use vstd::prelude::*;
use vstd::utf8::*;

verus! {

/// What a message from the server leads to.
#[derive(Debug, Clone, Copy, PartialEq, Eq, Structural)]
pub enum PlainReaction {
    /// It is no record: go on reading
    Ignored,
    /// Hand it on to the application
    Forward,
    /// Hand it on to the application, and ping the server after so many
    /// seconds
    ForwardAndPingAfter(u64),
    /// Stop reading
    Close,
}

/// Decides what a message from the server leads to.
pub fn on_record(value: &[u8]) -> (reaction: PlainReaction)
    ensures
        reaction == if !Data::readable(value@) {
            PlainReaction::Ignored
        } else if crate::wire::le16_value(value@) == Category::Pong.number() {
            PlainReaction::ForwardAndPingAfter(15)
        } else if crate::wire::le16_value(value@) == Category::Disconnect.number() {
            PlainReaction::Close
        } else {
            PlainReaction::Forward
        },
{
    match Data::deserialize(value) {
        Ok(data) => if data.category == Category::Pong.code() {
            PlainReaction::ForwardAndPingAfter(15)
        } else if data.category == Category::Disconnect.code() {
            PlainReaction::Close
        } else {
            PlainReaction::Forward
        },
        Err(_) => PlainReaction::Ignored,
    }
}

/// Decides whether to go on after an attempt to write a message: not after a
/// failure, nor after a record of a disconnect notice.
pub fn goes_on_after(bytes: &[u8], written: bool) -> (go_on: bool)
    ensures
        go_on == (written && !(Data::readable(bytes@) && crate::wire::le16_value(bytes@)
            == Category::Disconnect.number())),
{
    if !written {
        return false;
    }
    match Data::deserialize(bytes) {
        Ok(data) => data.category != Category::Disconnect.code(),
        Err(_) => true,
    }
}

/// The ping with which the connection begins, and which follows every pong.
pub fn opening_ping(id: &str) -> (ping: Message)
    requires
        crate::wire::text_fits(id@),
    ensures
        crate::common::carries(ping, crate::common::ping_bytes(id@)),
{
    make_ping_message(id)
}

/// A plain connection that has just been made.
pub struct OpenedPlainSession {
    /// What is left to say to the connection before
    pub farewell: Option<Farewell>,
    /// The ping to send first
    pub ping: Message,
}

/// Takes a plain connection that has just been made into use. The client names
/// itself with a ping; once that is sent, it is connected.
pub fn open_plain_session<S: ConnectionStore>(
    store: &mut S,
    sender: &mut ServerSender,
    sx: Sender<Message>,
    server_ip: &str,
    id: &str,
) -> (opened: OpenedPlainSession)
    requires
        old(sender)@.wf(),
        crate::wire::text_fits(server_ip@),
        crate::wire::text_fits(id@),
    ensures
        final(sender)@.wf(),
        final(sender)@ == (SenderView { sx: Some(sx), server_ip: server_ip@, ..old(sender)@ }),
        old(sender)@.owes(opened.farewell),
        crate::common::carries(opened.ping, crate::common::ping_bytes(id@)),
        final(store).connect_info() == old(store).info_after_set(
            server_ip@,
            crate::server_sender::port_of(server_ip@),
        ),
        final(store).client_id() == old(store).client_id(),
        final(store).registered() == old(store).registered(),
{
    let farewell = sender.add_to_store(store, sx, server_ip);
    OpenedPlainSession { farewell, ping: opening_ping(id) }
}

/// Notes that the first ping of a plain connection has been sent: the client
/// is connected, without waiting for an answer.
pub fn plain_session_opened(sender: &mut ServerSender)
    ensures
        final(sender)@ == old(sender)@.reporting(SenderStatus::Connected),
{
    sender.send_status(SenderStatus::Connected);
}

/// Whether the setting at `i` is the first that holds the client identifier.
pub open spec fn first_id(settings: Seq<Settings>, i: int) -> bool {
    &&& 0 <= i < settings.len()
    &&& settings[i].key@ == "ClientId"@
    &&& forall|j: int| 0 <= j < i ==> (#[trigger] settings[j]).key@ != "ClientId"@
}

/// The client identifier in a list of settings.
pub fn get_id(settings: &Vec<Settings>) -> (id: String)
    requires
        exists|i: int| #[trigger] first_id(settings@, i) && valid_utf8(settings@[i].value@),
    ensures
        exists|i: int| #[trigger] first_id(settings@, i) && id@ == decode_utf8(settings@[i].value@),
{
    let ghost at = choose|i: int| #[trigger]
        first_id(settings@, i) && valid_utf8(settings@[i].value@);
    let mut i: usize = 0;
    while i < settings.len()
        invariant
            i <= settings@.len(),
            first_id(settings@, at),
            valid_utf8(settings@[at].value@),
            forall|j: int| 0 <= j < i ==> (#[trigger] settings@[j]).key@ != "ClientId"@,
        decreases settings@.len() - i,
    {
        if text::same(settings[i].key.as_str(), save_key::CLIENT_ID) {
            assert(first_id(settings@, i as int));
            assert(at == i);
            let value: Vec<u8> = vstd::slice::slice_to_vec(settings[i].value.as_slice());
            return crate::connection_store::text_or_empty(value);
        }
        i = i + 1;
    }
    assert(false);
    String::new()
}

} // verus!
