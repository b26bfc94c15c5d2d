//! The bytes of messages and records.

use crate::common::{
    get_data_schema, make_atomic_message, make_disconnect_message, make_expired_output_message,
    make_ping_message, make_pong_message, make_response_message,
};
use crate::error::AtomicWebsocketError;
use crate::get_websocket::{goes_on_after, on_record, PlainReaction};
use crate::schema::{AppStartup, Category, Data, Disconnect, Expired, Ping, ServerConnectInfo};
use tokio_tungstenite::tungstenite::Message;
use vstd::prelude::*;
use vstd::utf8::*;

verus! {

/// A number in two bytes is its remainder by 256 and what is left, and is read
/// back as their sum with the second one weighed by 256.
pub proof fn lemma_two_bytes(n: u16, bytes: Seq<u8>)
    ensures
        crate::wire::le16(n) == seq![(n % 256) as u8, (n / 256) as u8],
        bytes.len() >= 2 ==> crate::wire::le16_value(bytes) as int == bytes[0] + 256 * bytes[1],
{
    reveal(crate::wire::le16_value);
}

/// A number in four bytes, low byte first, and what four bytes are read as.
pub proof fn lemma_four_bytes(n: u32, bytes: Seq<u8>)
    ensures
        crate::wire::le32(n).len() == 4,
        crate::wire::le32(n)[0] + 256 * crate::wire::le32(n)[1] + 65536 * crate::wire::le32(n)[2]
            + 16777216 * crate::wire::le32(n)[3] == n,
        bytes.len() >= 4 ==> crate::wire::le32_value(bytes) as int == bytes[0] + 256 * bytes[1]
            + 65536 * bytes[2] + 16777216 * bytes[3],
{
    reveal(crate::wire::le32_value);
}

/// Whether these bytes are a length of four bytes, low byte first, and then
/// this content.
pub open spec fn is_length_then(bytes: Seq<u8>, content: Seq<u8>) -> bool {
    &&& bytes.len() == 4 + content.len()
    &&& bytes[0] + 256 * bytes[1] + 65536 * bytes[2] + 16777216 * bytes[3] == content.len()
    &&& forall|i: int| 0 <= i < content.len() ==> #[trigger] content[i] == bytes[4 + i]
}

/// A frame is the length of its content and then the content.
pub proof fn lemma_frame_is_length_then_content(content: Seq<u8>)
    requires
        content.len() <= u32::MAX,
    ensures
        crate::wire::fits_frame(content),
        is_length_then(crate::wire::framed(content), content),
{
    lemma_four_bytes(content.len() as u32, Seq::empty());
}

/// Only what is longer than four bytes can count fits in no frame.
pub proof fn lemma_what_fits(content: Seq<u8>, text: Seq<char>)
    ensures
        crate::wire::fits_frame(content) <==> content.len() <= 0xffff_ffff,
        crate::wire::text_fits(text) <==> encode_utf8(text).len() <= 0xffff_ffff,
{
}

/// A frame is read where its four bytes of length and as many bytes as they say
/// are there; what is read are those bytes, and what follows is the rest.
pub proof fn lemma_frame_is_read_by_its_length(raw: Seq<u8>)
    ensures
        raw.len() < 4 ==> !crate::wire::has_frame(raw),
        raw.len() >= 4 ==> {
            let n = raw[0] + 256 * raw[1] + 65536 * raw[2] + 16777216 * raw[3];
            &&& crate::wire::has_frame(raw) <==> 4 + n <= raw.len()
            &&& 4 + n <= raw.len() ==> {
                &&& crate::wire::frame_content(raw) == raw.subrange(4, 4 + n)
                &&& crate::wire::after_frame(raw) == raw.subrange(4 + n, raw.len() as int)
                &&& crate::wire::has_text(raw) <==> valid_utf8(raw.subrange(4, 4 + n))
                &&& crate::wire::text_of(raw) == decode_utf8(raw.subrange(4, 4 + n))
            }
        },
{
    lemma_four_bytes(0, raw);
    if crate::wire::has_frame(raw) {
        let n = crate::wire::le32_value(raw) as int;
        assert(raw.skip(4 + n) =~= raw.subrange(4 + n, raw.len() as int));
    }
}

/// A message with a category is that category in two bytes, low byte first,
/// and then the payload, nothing else.
pub proof fn lemma_message_is_category_then_payload(category: u16, datas: Vec<u8>, message: Message)
    requires
        call_ensures(make_atomic_message, (category, datas), message),
    ensures
        crate::common::is_binary(message),
        crate::common::payload(message) == seq![(category % 256) as u8, (category / 256) as u8]
            + datas@,
{
    lemma_two_bytes(category, Seq::empty());
}

/// A message of the library's own goes under one of four numbers.
pub proof fn lemma_own_message_goes_under_its_number(
    category: Category,
    datas: Vec<u8>,
    message: Message,
)
    requires
        call_ensures(make_response_message, (category, datas), message),
    ensures
        crate::common::is_binary(message),
        crate::common::payload(message) == seq![
            match category {
                Category::Ping => 16u8,
                Category::Pong => 17u8,
                Category::Expired => 18u8,
                Category::Disconnect => 19u8,
            },
            39u8,
        ] + datas@,
{
    lemma_two_bytes(category.number(), Seq::empty());
}

/// Any message of two bytes or more is taken apart into the number in its first
/// two bytes and all that follows them; a shorter one is refused.
pub proof fn lemma_message_is_taken_apart(
    data: &[u8],
    r: Result<Data<'_>, AtomicWebsocketError>,
)
    requires
        call_ensures(get_data_schema, (data,), r),
    ensures
        r is Ok <==> data@.len() >= 2,
        r matches Ok(schema) ==> schema.category as int == data@[0] + 256 * data@[1]
            && schema.datas@ == data@.subrange(2, data@.len() as int),
{
    lemma_two_bytes(0, data@);
    if data@.len() >= 2 {
        assert(data@.skip(2) =~= data@.subrange(2, data@.len() as int));
    }
}

/// A ping is its category, the framed name of its peer, and four zero bytes.
pub proof fn lemma_ping_message_bytes(peer: &str, message: Message, frame: Seq<u8>)
    requires
        call_ensures(make_ping_message, (peer,), message),
        encode_utf8(peer@).len() <= u32::MAX,
        is_length_then(frame, encode_utf8(peer@)),
    ensures
        crate::common::is_binary(message),
        crate::common::payload(message) == seq![16u8, 39u8] + frame + seq![0u8, 0u8, 0u8, 0u8],
{
    lemma_two_bytes(10000, Seq::empty());
    lemma_one_frame(frame, encode_utf8(peer@));
    assert(crate::wire::le32(0) =~= seq![0u8, 0u8, 0u8, 0u8]);
    assert(crate::common::payload(message) =~= seq![16u8, 39u8] + frame + seq![
        0u8,
        0u8,
        0u8,
        0u8,
    ]);
}

/// A disconnect notice is its category and the framed name of its peer.
pub proof fn lemma_disconnect_message_bytes(peer: &str, message: Message, frame: Seq<u8>)
    requires
        call_ensures(make_disconnect_message, (peer,), message),
        encode_utf8(peer@).len() <= u32::MAX,
        is_length_then(frame, encode_utf8(peer@)),
    ensures
        crate::common::is_binary(message),
        crate::common::payload(message) == seq![19u8, 39u8] + frame,
{
    lemma_two_bytes(10003, Seq::empty());
    lemma_one_frame(frame, encode_utf8(peer@));
}

/// A pong is its category alone, and an expiry notice its category and a one.
pub proof fn lemma_pong_and_expired_bytes(pong: Message, expired: Message)
    requires
        call_ensures(make_pong_message, (), pong),
        call_ensures(make_expired_output_message, (), expired),
    ensures
        crate::common::is_binary(pong),
        crate::common::payload(pong) == seq![17u8, 39u8],
        crate::common::is_binary(expired),
        crate::common::payload(expired) == seq![18u8, 39u8, 1u8],
{
    lemma_two_bytes(10001, Seq::empty());
    lemma_two_bytes(10002, Seq::empty());
    assert(crate::common::payload(pong) =~= seq![17u8, 39u8]);
    assert(crate::common::payload(expired) =~= seq![18u8, 39u8, 1u8]);
}

/// Four bytes that are read as the same number are the same.
proof fn lemma_same_four_bytes(
    a0: u8,
    a1: u8,
    a2: u8,
    a3: u8,
    b0: u8,
    b1: u8,
    b2: u8,
    b3: u8,
)
    requires
        a0 + 256 * a1 + 65536 * a2 + 16777216 * a3 == b0 + 256 * b1 + 65536 * b2 + 16777216 * b3,
    ensures
        a0 == b0,
        a1 == b1,
        a2 == b2,
        a3 == b3,
{
    let a = a0 + 256 * (a1 + 256 * (a2 + 256 * a3));
    let b = b0 + 256 * (b1 + 256 * (b2 + 256 * b3));
    assert(a == b);
    assert(a0 == b0 && a1 + 256 * (a2 + 256 * a3) == b1 + 256 * (b2 + 256 * b3));
    assert(a1 == b1 && a2 + 256 * a3 == b2 + 256 * b3);
}

/// There is one frame for each content.
pub proof fn lemma_one_frame(frame: Seq<u8>, content: Seq<u8>)
    requires
        content.len() <= u32::MAX,
        is_length_then(frame, content),
    ensures
        frame == crate::wire::framed(content),
{
    lemma_frame_is_length_then_content(content);
    lemma_one_framing(frame, crate::wire::framed(content), content);
}

/// Two frames of the same content are the same.
proof fn lemma_one_framing(a: Seq<u8>, b: Seq<u8>, content: Seq<u8>)
    requires
        is_length_then(a, content),
        is_length_then(b, content),
    ensures
        a == b,
{
    lemma_same_four_bytes(a[0], a[1], a[2], a[3], b[0], b[1], b[2], b[3]);
    assert forall|i: int| 0 <= i < a.len() implies a[i] == b[i] by {
        if i >= 4 {
            assert(content[i - 4] == a[4 + (i - 4)]);
            assert(content[i - 4] == b[4 + (i - 4)]);
        }
    }
    assert(a =~= b);
}

/// The bytes of the library's own messages, as other contracts speak of them.
pub proof fn lemma_own_bytes(peer: Seq<char>, frame: Seq<u8>)
    requires
        encode_utf8(peer).len() <= u32::MAX,
        is_length_then(frame, encode_utf8(peer)),
    ensures
        crate::common::ping_bytes(peer) == seq![16u8, 39u8] + frame + seq![0u8, 0u8, 0u8, 0u8],
        crate::common::disconnect_bytes(peer) == seq![19u8, 39u8] + frame,
        crate::common::pong_bytes() == seq![17u8, 39u8],
        crate::common::expired_bytes() == seq![18u8, 39u8, 1u8],
        crate::wire::framed_text(peer) == frame,
{
    lemma_one_frame(frame, encode_utf8(peer));
    assert(crate::wire::le32(0) =~= seq![0u8, 0u8, 0u8, 0u8]);
    assert(crate::common::ping_bytes(peer) =~= seq![16u8, 39u8] + frame + seq![
        0u8,
        0u8,
        0u8,
        0u8,
    ]);
    assert(crate::common::pong_bytes() =~= seq![17u8, 39u8]);
    assert(crate::common::expired_bytes() =~= seq![18u8, 39u8, 1u8]);
}

/// Where a message stands under which number, and what it carries, is told by
/// its bytes alone.
pub proof fn lemma_category_and_payload_of_bytes(raw: Seq<u8>, category: Category)
    ensures
        crate::common::has_category(raw) <==> raw.len() >= 2,
        raw.len() >= 2 ==> {
            &&& crate::common::category_of(raw) as int == raw[0] + 256 * raw[1]
            &&& crate::common::body_of(raw) == raw.subrange(2, raw.len() as int)
        },
        crate::common::is_category(raw, category) <==> raw.len() >= 2 && raw[0] + 256 * raw[1]
            == match category {
            Category::Ping => 10000int,
            Category::Pong => 10001int,
            Category::Expired => 10002int,
            Category::Disconnect => 10003int,
        },
{
    lemma_two_bytes(0, raw);
    if raw.len() >= 2 {
        assert(raw.skip(2) =~= raw.subrange(2, raw.len() as int));
    }
}

/// A message record is the category in two bytes and the framed payload. One
/// whose payload fits in no frame is refused.
pub proof fn lemma_data_record_bytes(
    data: &Data<'_>,
    out: &mut Vec<u8>,
    r: Result<usize, AtomicWebsocketError>,
    frame: Seq<u8>,
)
    requires
        call_ensures(Data::serialize, (data, out), r),
        data.datas@.len() <= u32::MAX ==> is_length_then(frame, data.datas@),
    ensures
        r is Ok <==> data.datas@.len() <= u32::MAX,
        r is Ok ==> final(out)@ == old(out)@ + seq![
            (data.category % 256) as u8,
            (data.category / 256) as u8,
        ] + frame,
{
    lemma_two_bytes(data.category, Seq::empty());
    if data.datas@.len() <= u32::MAX {
        lemma_one_frame(frame, data.datas@);
        assert(r is Ok ==> final(out)@ =~= old(out)@ + seq![
            (data.category % 256) as u8,
            (data.category / 256) as u8,
        ] + frame);
    }
}

/// A message record is read wherever its category and its whole frame are
/// there, with whatever payload.
pub proof fn lemma_data_record_is_read(raw: &[u8], r: Result<Data<'_>, AtomicWebsocketError>)
    requires
        call_ensures(Data::deserialize, (raw,), r),
    ensures
        raw@.len() < 6 ==> r is Err,
        raw@.len() >= 6 ==> {
            let n = raw@[2] + 256 * raw@[3] + 65536 * raw@[4] + 16777216 * raw@[5];
            &&& r is Ok <==> 6 + n <= raw@.len()
            &&& r matches Ok(data) ==> data.category as int == raw@[0] + 256 * raw@[1]
                && data.datas@ == raw@.subrange(6, 6 + n)
        },
{
    lemma_two_bytes(0, raw@);
    if raw@.len() >= 2 {
        lemma_frame_is_read_by_its_length(raw@.skip(2));
        if raw@.len() >= 6 {
            let n = raw@[2] + 256 * raw@[3] + 65536 * raw@[4] + 16777216 * raw@[5];
            if 6 + n <= raw@.len() {
                assert(raw@.skip(2).subrange(4, 4 + n) =~= raw@.subrange(6, 6 + n));
            }
        }
    }
}

/// A ping is the framed name of the peer and a number in four bytes.
pub proof fn lemma_ping_record_bytes(
    ping: &Ping<'_>,
    out: &mut Vec<u8>,
    r: Result<usize, AtomicWebsocketError>,
    frame: Seq<u8>,
)
    requires
        call_ensures(Ping::serialize, (ping, out), r),
        encode_utf8(ping.peer@).len() <= u32::MAX ==> is_length_then(
            frame,
            encode_utf8(ping.peer@),
        ),
    ensures
        r is Ok <==> encode_utf8(ping.peer@).len() <= u32::MAX,
        r is Ok ==> {
            let n = (old(out)@.len() + frame.len()) as int;
            &&& final(out)@.len() == n + 4
            &&& final(out)@.subrange(0, n) == old(out)@ + frame
            &&& final(out)@[n] + 256 * final(out)@[n + 1] + 65536 * final(out)@[n + 2]
                + 16777216 * final(out)@[n + 3] == ping.activations
        },
{
    if encode_utf8(ping.peer@).len() <= u32::MAX {
        lemma_one_frame(frame, encode_utf8(ping.peer@));
        lemma_four_bytes(ping.activations, Seq::empty());
        let n = (old(out)@.len() + frame.len()) as int;
        assert(r is Ok ==> final(out)@.subrange(0, n) =~= old(out)@ + frame);
    }
}

/// A ping is read where a whole frame of well-formed text and four bytes after
/// it are there.
pub proof fn lemma_ping_record_is_read(raw: &[u8], r: Result<Ping<'_>, AtomicWebsocketError>)
    requires
        call_ensures(Ping::deserialize, (raw,), r),
    ensures
        raw@.len() < 4 ==> r is Err,
        raw@.len() >= 4 ==> {
            let n = raw@[0] + 256 * raw@[1] + 65536 * raw@[2] + 16777216 * raw@[3];
            &&& r is Ok <==> 8 + n <= raw@.len() && valid_utf8(raw@.subrange(4, 4 + n))
            &&& r matches Ok(ping) ==> ping.peer@ == decode_utf8(raw@.subrange(4, 4 + n))
                && ping.activations == raw@[4 + n] + 256 * raw@[5 + n] + 65536 * raw@[6 + n]
                + 16777216 * raw@[7 + n]
        },
{
    lemma_frame_is_read_by_its_length(raw@);
    if crate::wire::has_frame(raw@) {
        lemma_four_bytes(0, crate::wire::after_frame(raw@));
    }
}

/// Whom a ping names, and whether it names anybody, is told by its bytes alone.
pub proof fn lemma_ping_names_by_its_bytes(raw: Seq<u8>)
    ensures
        raw.len() < 4 ==> !Ping::readable(raw),
        raw.len() >= 4 ==> {
            let n = raw[0] + 256 * raw[1] + 65536 * raw[2] + 16777216 * raw[3];
            &&& Ping::readable(raw) <==> 8 + n <= raw.len() && valid_utf8(raw.subrange(4, 4 + n))
            &&& Ping::readable(raw) ==> Ping::peer_in(raw) == decode_utf8(raw.subrange(4, 4 + n))
        },
{
    lemma_frame_is_read_by_its_length(raw);
}

/// A disconnect record is the framed name of the peer, and is read back from
/// any bytes that begin with a whole frame of text.
pub proof fn lemma_disconnect_record(
    disconnect: &Disconnect<'_>,
    out: &mut Vec<u8>,
    written: Result<usize, AtomicWebsocketError>,
    frame: Seq<u8>,
    raw: &[u8],
    read: Result<Disconnect<'_>, AtomicWebsocketError>,
)
    requires
        call_ensures(Disconnect::serialize, (disconnect, out), written),
        encode_utf8(disconnect.peer@).len() <= u32::MAX ==> is_length_then(
            frame,
            encode_utf8(disconnect.peer@),
        ),
        call_ensures(Disconnect::deserialize, (raw,), read),
    ensures
        written is Ok <==> encode_utf8(disconnect.peer@).len() <= u32::MAX,
        written is Ok ==> final(out)@ == old(out)@ + frame,
        raw@.len() < 4 ==> read is Err,
        raw@.len() >= 4 ==> {
            let n = raw@[0] + 256 * raw@[1] + 65536 * raw@[2] + 16777216 * raw@[3];
            &&& read is Ok <==> 4 + n <= raw@.len() && valid_utf8(raw@.subrange(4, 4 + n))
            &&& read matches Ok(notice) ==> notice.peer@ == decode_utf8(raw@.subrange(4, 4 + n))
        },
{
    if encode_utf8(disconnect.peer@).len() <= u32::MAX {
        lemma_one_frame(frame, encode_utf8(disconnect.peer@));
    }
    lemma_frame_is_read_by_its_length(raw@);
}

/// An expiry record is one byte: one if the registration has run out, zero if
/// it has not.
pub proof fn lemma_expired_record(
    expired: &Expired,
    out: &mut Vec<u8>,
    written: Result<usize, AtomicWebsocketError>,
)
    requires
        call_ensures(Expired::serialize, (expired, out), written),
    ensures
        written is Ok,
        final(out)@ == old(out)@.push(if expired.is_expired {
            1u8
        } else {
            0u8
        }),
{
    assert(final(out)@ =~= old(out)@.push(if expired.is_expired {
        1u8
    } else {
        0u8
    }));
}

/// Connect info is the framed address and then the framed port.
pub proof fn lemma_connect_info_record_bytes(
    info: &ServerConnectInfo<'_>,
    out: &mut Vec<u8>,
    r: Result<usize, AtomicWebsocketError>,
    ip_frame: Seq<u8>,
    port_frame: Seq<u8>,
)
    requires
        call_ensures(ServerConnectInfo::serialize, (info, out), r),
        encode_utf8(info.server_ip@).len() <= u32::MAX,
        encode_utf8(info.port@).len() <= u32::MAX,
        is_length_then(ip_frame, encode_utf8(info.server_ip@)),
        is_length_then(port_frame, encode_utf8(info.port@)),
    ensures
        r is Ok,
        final(out)@ == old(out)@ + ip_frame + port_frame,
{
    lemma_one_frame(ip_frame, encode_utf8(info.server_ip@));
    lemma_one_frame(port_frame, encode_utf8(info.port@));
    assert(final(out)@ =~= old(out)@ + ip_frame + port_frame);
}

/// An announcement is the framed identifier and a number in four bytes.
pub proof fn lemma_app_startup_record_bytes(
    startup: &AppStartup<'_>,
    out: &mut Vec<u8>,
    r: Result<usize, AtomicWebsocketError>,
    frame: Seq<u8>,
)
    requires
        call_ensures(AppStartup::serialize, (startup, out), r),
        encode_utf8(startup.id@).len() <= u32::MAX,
        is_length_then(frame, encode_utf8(startup.id@)),
    ensures
        r is Ok,
        ({
            let n = (old(out)@.len() + frame.len()) as int;
            &&& final(out)@.len() == n + 4
            &&& final(out)@.subrange(0, n) == old(out)@ + frame
            &&& final(out)@[n] + 256 * final(out)@[n + 1] + 65536 * final(out)@[n + 2]
                + 16777216 * final(out)@[n + 3] == startup.app_type
        }),
{
    lemma_one_frame(frame, encode_utf8(startup.id@));
    lemma_four_bytes(startup.app_type, Seq::empty());
    let n = (old(out)@.len() + frame.len()) as int;
    assert(final(out)@.subrange(0, n) =~= old(out)@ + frame);
}

/// On a plain connection a whole record of any category is handed on, but for a
/// disconnect notice, which ends it; a pong is followed by a ping a quarter of
/// a minute later. What is no whole record is passed over.
pub proof fn lemma_plain_record_is_handed_on(value: &[u8], reaction: PlainReaction)
    requires
        call_ensures(on_record, (value,), reaction),
    ensures
        value@.len() < 6 ==> reaction == PlainReaction::Ignored,
        value@.len() >= 6 ==> {
            let category = value@[0] + 256 * value@[1];
            let n = value@[2] + 256 * value@[3] + 65536 * value@[4] + 16777216 * value@[5];
            &&& reaction == PlainReaction::Ignored <==> 6 + n > value@.len()
            &&& reaction == PlainReaction::Close <==> 6 + n <= value@.len() && category == 10003
            &&& reaction == PlainReaction::ForwardAndPingAfter(15) <==> 6 + n <= value@.len()
                && category == 10001
            &&& reaction == PlainReaction::Forward <==> 6 + n <= value@.len() && category != 10003
                && category != 10001
        },
{
    lemma_two_bytes(0, value@);
    if value@.len() >= 2 {
        lemma_frame_is_read_by_its_length(value@.skip(2));
    }
}

/// A plain connection goes on after everything that was written but a record
/// of a disconnect notice.
pub proof fn lemma_plain_writer_goes_on(bytes: &[u8], written: bool, go_on: bool)
    requires
        call_ensures(goes_on_after, (bytes, written), go_on),
    ensures
        !written ==> !go_on,
        written && bytes@.len() < 6 ==> go_on,
        written && bytes@.len() >= 6 ==> {
            let category = bytes@[0] + 256 * bytes@[1];
            let n = bytes@[2] + 256 * bytes@[3] + 65536 * bytes@[4] + 16777216 * bytes@[5];
            go_on <==> 6 + n > bytes@.len() || category != 10003
        },
{
    lemma_two_bytes(0, bytes@);
    if bytes@.len() >= 2 {
        lemma_frame_is_read_by_its_length(bytes@.skip(2));
    }
}

} // verus!
