//! Building messages and taking them apart.

use crate::error::AtomicWebsocketError;
use crate::schema::{Category, Data, Disconnect, Expired, Ping};
use crate::types::InMemoryStorage;
use crate::wire;
use crate::Settings;
use tokio_tungstenite::tungstenite::Message;
use vstd::prelude::*;

verus! {

#[verifier::external_type_specification]
#[verifier::external_body]
pub struct ExMessage(Message);

/// The bytes that a WebSocket message carries, as `Message::into_data` hands
/// them out.
pub uninterp spec fn payload(message: Message) -> Seq<u8>;

/// Whether a WebSocket message is a binary one, as `Message::is_binary` says.
pub uninterp spec fn is_binary(message: Message) -> bool;

/// Whether this is a binary message with these bytes.
pub open spec fn carries(message: Message, bytes: Seq<u8>) -> bool {
    is_binary(message) && payload(message) == bytes
}

/// `tungstenite`'s `Message::binary`: a binary message that carries exactly
/// these bytes.
#[verifier::external_body]
pub(crate) fn binary_message(bytes: Vec<u8>) -> (message: Message)
    ensures
        payload(message) == bytes@,
        is_binary(message),
{
    Message::binary(bytes)
}

/// The layout of a message: the category in two bytes, low byte first, then
/// the payload.
pub open spec fn envelope(category: u16, datas: Seq<u8>) -> Seq<u8> {
    wire::le16(category) + datas
}

/// Whether a message is long enough to hold a category.
pub open spec fn has_category(raw: Seq<u8>) -> bool {
    raw.len() >= 2
}

/// The category of a message.
pub open spec fn category_of(raw: Seq<u8>) -> u16 {
    wire::le16_value(raw)
}

/// What follows the category.
pub open spec fn body_of(raw: Seq<u8>) -> Seq<u8> {
    raw.skip(2)
}

/// Whether a message has this category.
pub open spec fn is_category(raw: Seq<u8>, category: Category) -> bool {
    has_category(raw) && category_of(raw) == category.number()
}

/// The bytes of the ping of a peer.
pub open spec fn ping_bytes(peer: Seq<char>) -> Seq<u8> {
    envelope(Category::Ping.number(), wire::framed_text(peer) + wire::le32(0))
}

/// The bytes of the disconnect notice for a peer.
pub open spec fn disconnect_bytes(peer: Seq<char>) -> Seq<u8> {
    envelope(Category::Disconnect.number(), wire::framed_text(peer))
}

/// The bytes of a pong.
pub open spec fn pong_bytes() -> Seq<u8> {
    envelope(Category::Pong.number(), Seq::empty())
}

/// The bytes of an expiry notice.
pub open spec fn expired_bytes() -> Seq<u8> {
    envelope(Category::Expired.number(), seq![1u8])
}

/// The setting with this name, if there is one.
pub fn get_setting_by_key(db: &InMemoryStorage, key: String) -> (r: Result<
    Option<Settings>,
    AtomicWebsocketError,
>)
    ensures
        r is Ok,
        r->Ok_0 is Some <==> db@.contains_key(key@),
        r->Ok_0 matches Some(settings) ==> settings.key@ == key@ && settings.value@ == db@[key@],
{
    match db.get(key.as_str()) {
        Some(value) => Ok(Some(Settings { key, value: vstd::slice::slice_to_vec(value.as_slice()) })),
        None => Ok(None),
    }
}

/// Keeps a setting, in place of the one with the same name.
pub fn set_setting(db: &mut InMemoryStorage, settings: Settings) -> (r: Result<
    bool,
    AtomicWebsocketError,
>)
    ensures
        r is Ok && r->Ok_0,
        final(db)@ == old(db)@.insert(settings.key@, settings.value@),
{
    db.insert(settings.key, settings.value);
    Ok(true)
}

/// Drops the setting with this name; returns whether there was one.
pub fn remove_setting(db: &mut InMemoryStorage, key: String) -> (r: Result<
    bool,
    AtomicWebsocketError,
>)
    ensures
        r is Ok && r->Ok_0 == old(db)@.contains_key(key@),
        final(db)@ == old(db)@.remove(key@),
{
    Ok(db.remove(key.as_str()).is_some())
}

/// Splits a message into its category and its payload. A message shorter than
/// two bytes is refused.
pub fn get_data_schema<'a>(data: &'a [u8]) -> (r: Result<Data<'a>, AtomicWebsocketError>)
    ensures
        r is Ok <==> has_category(data@),
        r matches Ok(schema) ==> schema.category == category_of(data@) && schema.datas@ == body_of(
            data@,
        ),
        r matches Err(e) ==> e matches AtomicWebsocketError::Serialization(text) && text@
            == "Data length is too short"@,
{
    if data.len() < 2 {
        return Err(AtomicWebsocketError::Serialization("Data length is too short".to_owned()));
    }
    let category: u16 = data[0] as u16 + data[1] as u16 * 256;
    proof {
        reveal(wire::le16_value);
    }
    let datas = vstd::slice::slice_subrange(data, 2, data.len());
    assert(datas@ == body_of(data@));
    Ok(Data { category, datas })
}

/// A message with this category and payload.
pub fn make_atomic_message(category: u16, datas: Vec<u8>) -> (message: Message)
    ensures
        carries(message, envelope(category, datas@)),
{
    let mut rest: Vec<u8> = datas;
    let mut bytes: Vec<u8> = vec![(category % 256) as u8, (category / 256) as u8];
    bytes.append(&mut rest);
    assert(bytes@ == envelope(category, datas@));
    binary_message(bytes)
}

/// A message that carries these bytes and no category.
pub fn make_raw_message(data: &[u8]) -> (message: Message)
    ensures
        carries(message, data@),
{
    binary_message(vstd::slice::slice_to_vec(data))
}

/// A message with one of the library's own categories.
pub fn make_response_message(category: Category, datas: Vec<u8>) -> (message: Message)
    ensures
        carries(message, envelope(category.number(), datas@)),
{
    make_atomic_message(category.code(), datas)
}

/// The ping with which a client names itself.
pub fn make_ping_message(peer: &str) -> (message: Message)
    requires
        wire::text_fits(peer@),
    ensures
        carries(message, ping_bytes(peer@)),
{
    let mut datas: Vec<u8> = Vec::new();
    let _ = Ping { peer, activations: 0 }.serialize(&mut datas);
    assert(datas@ == wire::framed_text(peer@) + wire::le32(0));
    make_response_message(Category::Ping, datas)
}

/// The notice that a connection is about to be closed.
pub fn make_disconnect_message(peer: &str) -> (message: Message)
    requires
        wire::text_fits(peer@),
    ensures
        carries(message, disconnect_bytes(peer@)),
{
    let mut datas: Vec<u8> = Vec::new();
    let _ = Disconnect { peer }.serialize(&mut datas);
    assert(datas@ == wire::framed_text(peer@));
    make_response_message(Category::Disconnect, datas)
}

/// The server's answer to a ping.
pub fn make_pong_message() -> (message: Message)
    ensures
        carries(message, pong_bytes()),
{
    make_response_message(Category::Pong, Vec::new())
}

/// The notice that a registration has run out.
pub fn make_expired_output_message() -> (message: Message)
    ensures
        carries(message, expired_bytes()),
{
    let mut datas: Vec<u8> = Vec::new();
    let _ = Expired { is_expired: true }.serialize(&mut datas);
    assert(datas@ == seq![1u8]);
    make_response_message(Category::Expired, datas)
}

/// Taking a message apart gives back the category and the payload that it was
/// made of.
pub proof fn lemma_envelope_round_trip(category: u16, datas: Seq<u8>)
    ensures
        has_category(envelope(category, datas)),
        category_of(envelope(category, datas)) == category,
        body_of(envelope(category, datas)) == datas,
{
    wire::lemma_le16_round_trip(category, datas);
}

/// A server that reads the ping of a peer learns that peer's name.
pub proof fn lemma_ping_names_its_peer(peer: Seq<char>)
    requires
        wire::text_fits(peer),
    ensures
        is_category(ping_bytes(peer), Category::Ping),
        Ping::readable(body_of(ping_bytes(peer))),
        Ping::peer_in(body_of(ping_bytes(peer))) == peer,
{
    let tail = wire::le32(0);
    lemma_envelope_round_trip(Category::Ping.number(), wire::framed_text(peer) + tail);
    wire::lemma_text_round_trip(peer, tail);
}

/// The library's own messages are told apart by their category alone.
pub proof fn lemma_own_messages_have_their_category(peer: Seq<char>)
    ensures
        is_category(ping_bytes(peer), Category::Ping),
        is_category(pong_bytes(), Category::Pong),
        is_category(expired_bytes(), Category::Expired),
        is_category(disconnect_bytes(peer), Category::Disconnect),
{
    lemma_envelope_round_trip(Category::Ping.number(), wire::framed_text(peer) + wire::le32(0));
    lemma_envelope_round_trip(Category::Pong.number(), Seq::empty());
    lemma_envelope_round_trip(Category::Expired.number(), seq![1u8]);
    lemma_envelope_round_trip(Category::Disconnect.number(), wire::framed_text(peer));
}

} // verus!
