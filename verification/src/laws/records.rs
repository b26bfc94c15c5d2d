//! Categories, and records that are read back.

use crate::error::AtomicWebsocketError;
use crate::schema::{AppStartup, AppStartupOutput, Category, Expired, SaveKey, ServerConnectInfo};
use crate::types::SaveKeyExt;
use tokio_tungstenite::tungstenite::Message;
use vstd::prelude::*;
use vstd::utf8::*;

verus! {

/// The library's own categories are the four numbers from 10000 on, and no
/// other number is one of them.
pub proof fn lemma_the_numbers_of_the_categories(
    ping: u16,
    pong: u16,
    expired: u16,
    disconnect: u16,
    n: u16,
    found: Option<Category>,
)
    requires
        call_ensures(Category::code, (Category::Ping,), ping),
        call_ensures(Category::code, (Category::Pong,), pong),
        call_ensures(Category::code, (Category::Expired,), expired),
        call_ensures(Category::code, (Category::Disconnect,), disconnect),
        call_ensures(Category::from_code, (n,), found),
    ensures
        ping == 10000,
        pong == 10001,
        expired == 10002,
        disconnect == 10003,
        n == 10000 <==> found == Some(Category::Ping),
        n == 10001 <==> found == Some(Category::Pong),
        n == 10002 <==> found == Some(Category::Expired),
        n == 10003 <==> found == Some(Category::Disconnect),
        found is None <==> n < 10000 || n > 10003,
{
    assert(Category::Ping.number() == 10000);
    assert(Category::Pong.number() == 10001);
    assert(Category::Expired.number() == 10002);
    assert(Category::Disconnect.number() == 10003);
}

/// An expiry notice says yes in one byte that is not zero, and no in a zero.
pub proof fn lemma_an_expiry_notice_is_read_back(
    notice: &Expired,
    out: &mut Vec<u8>,
    written: Result<usize, AtomicWebsocketError>,
    raw: &[u8],
    read: Result<Expired, AtomicWebsocketError>,
)
    requires
        call_ensures(Expired::serialize, (notice, out), written),
        call_ensures(Expired::deserialize, (raw,), read),
    ensures
        written == Ok::<usize, AtomicWebsocketError>(1),
        final(out)@.len() == old(out)@.len() + 1,
        final(out)@.drop_last() == old(out)@,
        notice.is_expired ==> final(out)@.last() == 1,
        !notice.is_expired ==> final(out)@.last() == 0,
        read is Ok <==> raw@.len() > 0,
        (read matches Ok(back) ==> (back.is_expired <==> raw@[0] != 0)),
        old(out)@.len() == 0 && raw@ == final(out)@ ==> (read matches Ok(back)
            && back.is_expired == notice.is_expired),
{
    assert(final(out)@.drop_last() =~= old(out)@);
}

/// An answer to an announcement is one byte, and is read back.
pub proof fn lemma_an_answer_is_read_back(
    answer: &AppStartupOutput,
    out: &mut Vec<u8>,
    written: Result<usize, AtomicWebsocketError>,
    raw: &[u8],
    read: Result<AppStartupOutput, AtomicWebsocketError>,
)
    requires
        call_ensures(AppStartupOutput::serialize, (answer, out), written),
        call_ensures(AppStartupOutput::deserialize, (raw,), read),
    ensures
        written == Ok::<usize, AtomicWebsocketError>(1),
        final(out)@.len() == old(out)@.len() + 1,
        final(out)@.drop_last() == old(out)@,
        answer.success ==> final(out)@.last() == 1,
        !answer.success ==> final(out)@.last() == 0,
        read is Ok <==> raw@.len() > 0,
        (read matches Ok(back) ==> (back.success <==> raw@[0] != 0)),
{
    assert(final(out)@.drop_last() =~= old(out)@);
}

/// An announcement is read back, whatever follows it.
pub proof fn lemma_an_announcement_is_read_back(
    raw: &[u8],
    read: Result<AppStartup<'_>, AtomicWebsocketError>,
    id: Seq<char>,
    frame: Seq<u8>,
    number: Seq<u8>,
    rest: Seq<u8>,
)
    requires
        call_ensures(AppStartup::deserialize, (raw,), read),
        encode_utf8(id).len() <= u32::MAX,
        crate::laws::messages::is_length_then(frame, encode_utf8(id)),
        number.len() == 4,
        raw@ == frame + number + rest,
    ensures
        read matches Ok(back) && back.id@ == id && back.app_type == number[0] + 256 * number[1]
            + 65536 * number[2] + 16777216 * number[3],
{
    crate::laws::messages::lemma_one_frame(frame, encode_utf8(id));
    crate::wire::lemma_text_round_trip(id, number + rest);
    assert(frame + number + rest =~= frame + (number + rest));
    crate::laws::messages::lemma_four_bytes(0, number + rest);
}

/// An address and a port are read back, whatever follows them.
pub proof fn lemma_connect_info_is_read(
    raw: &[u8],
    read: Result<ServerConnectInfo<'_>, AtomicWebsocketError>,
    server_ip: Seq<char>,
    port: Seq<char>,
    ip_frame: Seq<u8>,
    port_frame: Seq<u8>,
    rest: Seq<u8>,
)
    requires
        call_ensures(ServerConnectInfo::deserialize, (raw,), read),
        encode_utf8(server_ip).len() <= u32::MAX,
        encode_utf8(port).len() <= u32::MAX,
        crate::laws::messages::is_length_then(ip_frame, encode_utf8(server_ip)),
        crate::laws::messages::is_length_then(port_frame, encode_utf8(port)),
        raw@ == ip_frame + port_frame + rest,
    ensures
        read matches Ok(back) && back.server_ip@ == server_ip && back.port@ == port,
{
    crate::laws::messages::lemma_one_frame(ip_frame, encode_utf8(server_ip));
    crate::laws::messages::lemma_one_frame(port_frame, encode_utf8(port));
    crate::wire::lemma_text_round_trip(server_ip, port_frame + rest);
    crate::wire::lemma_text_round_trip(port, rest);
    assert(ip_frame + port_frame + rest =~= ip_frame + (port_frame + rest));
}

/// Without categories the library's own messages are empty.
pub proof fn lemma_bare_messages_are_empty(
    peer: &str,
    ping: Message,
    pong: Message,
    disconnect: Message,
    expired: Message,
)
    requires
        call_ensures(crate::raw::make_ping_message, (peer,), ping),
        call_ensures(crate::raw::make_pong_message, (), pong),
        call_ensures(crate::raw::make_disconnect_message, (peer,), disconnect),
        call_ensures(crate::raw::make_expired_output_message, (), expired),
    ensures
        crate::common::is_binary(ping) && crate::common::payload(ping).len() == 0,
        crate::common::is_binary(pong) && crate::common::payload(pong).len() == 0,
        crate::common::is_binary(disconnect) && crate::common::payload(disconnect).len() == 0,
        crate::common::is_binary(expired) && crate::common::payload(expired).len() == 0,
{
}

/// The names of the settings that the library keeps.
pub proof fn lemma_the_names_of_the_settings(
    info: &'static str,
    valid: &'static str,
    id: &'static str,
)
    requires
        call_ensures(<SaveKey as SaveKeyExt>::as_str, (&SaveKey::ServerConnectInfo,), info),
        call_ensures(<SaveKey as SaveKeyExt>::as_str, (&SaveKey::ValidClient,), valid),
        call_ensures(<SaveKey as SaveKeyExt>::as_str, (&SaveKey::ClientId,), id),
    ensures
        info@ == "ServerConnectInfo"@,
        valid@ == "ValidClient"@,
        id@ == "ClientId"@,
{
}

} // verus!
