//! Addresses: their ports, hosts and numbers, and the URLs that are dialed.

use crate::get_internal_websocket::url_host;
use crate::get_outer_websocket::outer_ws_url;
use crate::ip::get_ip;
use crate::server_sender::{parse_port, to_ws_url};
use crate::text;
use crate::text::byte_text;
use vstd::prelude::*;
use vstd::string::*;

verus! {

/// Whether a character is one of the ten digits.
pub open spec fn digit(c: char) -> bool {
    48 <= c as u32 <= 57
}

/// A run of digits behind a colon is the port, whatever stands before the colon
/// and however many slashes follow.
pub proof fn lemma_digits_behind_the_last_colon_are_the_port(
    address: &str,
    port: String,
    head: Seq<char>,
    digits: Seq<char>,
    slashes: Seq<char>,
)
    requires
        call_ensures(parse_port, (address,), port),
        address@ == head + seq![':'] + digits + slashes,
        digits.len() > 0,
        forall|i: int| 0 <= i < digits.len() ==> digit(#[trigger] digits[i]),
        forall|i: int| 0 <= i < slashes.len() ==> #[trigger] slashes[i] == '/',
    ensures
        port@ == digits,
{
    let core = head + seq![':'] + digits;
    assert(digit(digits[digits.len() - 1]));
    assert(core.last() == digits[digits.len() - 1]);
    text::lemma_trimmed_end_is(core, slashes, '/');
    let at = head.len() as int;
    assert forall|i: int| at < i < core.len() implies #[trigger] core[i] != ':' by {
        assert(digit(digits[i - at - 1]));
        assert(core[i] == digits[i - at - 1]);
    }
    text::lemma_last_place_is(core, ':', core.len() as int, at);
    assert(text::behind_last(core, ':') =~= digits);
}

/// What stands behind the last colon is no port unless it is a run of digits.
pub proof fn lemma_anything_else_behind_the_last_colon_is_no_port(
    address: &str,
    port: String,
    head: Seq<char>,
    tail: Seq<char>,
    slashes: Seq<char>,
    at: int,
)
    requires
        call_ensures(parse_port, (address,), port),
        address@ == head + seq![':'] + tail + slashes,
        forall|i: int| 0 <= i < tail.len() ==> #[trigger] tail[i] != ':',
        tail.len() > 0 ==> 0 <= at < tail.len() && !digit(tail[at]) && tail.last() != '/',
        forall|i: int| 0 <= i < slashes.len() ==> #[trigger] slashes[i] == '/',
    ensures
        port@.len() == 0,
{
    let core = head + seq![':'] + tail;
    assert(core.last() == if tail.len() > 0 {
        tail.last()
    } else {
        ':'
    });
    text::lemma_trimmed_end_is(core, slashes, '/');
    let colon = head.len() as int;
    assert forall|i: int| colon < i < core.len() implies #[trigger] core[i] != ':' by {
        assert(core[i] == tail[i - colon - 1]);
    }
    text::lemma_last_place_is(core, ':', core.len() as int, colon);
    assert(text::behind_last(core, ':') =~= tail);
    if tail.len() > 0 {
        assert(!text::is_digit(tail[at]));
    }
}

/// Without a colon there is no port.
pub proof fn lemma_no_port_without_a_colon(address: &str, port: String)
    requires
        call_ensures(parse_port, (address,), port),
        forall|i: int| 0 <= i < address@.len() ==> #[trigger] address@[i] != ':',
    ensures
        port@.len() == 0,
{
    let s = address@;
    text::lemma_trimmed_end_prefix(s, '/');
    let core = text::trimmed_end(s, '/');
    assert forall|i: int| 0 <= i < core.len() implies #[trigger] core[i] != ':' by {
        assert(core[i] == s[i]);
    }
    text::lemma_last_place_is(core, ':', core.len() as int, -1);
    assert(text::behind_last(core, ':') =~= core);
}

/// An address that names a scheme anywhere is dialed as it is.
pub proof fn lemma_an_address_with_a_scheme_is_dialed_as_it_is(
    address: &str,
    port: &str,
    url: String,
    before: Seq<char>,
    behind: Seq<char>,
)
    requires
        call_ensures(to_ws_url, (address, port), url),
        address@ == before + seq![':', '/', '/'] + behind,
    ensures
        url@ == address@,
{
    reveal_strlit("://");
    let at = before.len() as int;
    assert(address@.subrange(at, at + 3) =~= seq![':', '/', '/']);
    assert("://"@ =~= seq![':', '/', '/']);
    text::lemma_part_found(address@, "://"@, at);
}

/// An address without a scheme gets one, and the port if it carries none of its
/// own and there is one to add.
pub proof fn lemma_an_address_without_a_scheme_is_completed(
    address: &str,
    port: &str,
    url: String,
    own: String,
)
    requires
        call_ensures(to_ws_url, (address, port), url),
        call_ensures(parse_port, (address,), own),
        forall|i: int|
            0 <= i < address@.len() - 2 && #[trigger] address@[i] == ':' ==> !(address@[i + 1]
                == '/' && address@[i + 2] == '/'),
    ensures
        own@.len() > 0 ==> url@ == "ws://"@ + address@,
        port@.len() == 0 ==> url@ == "ws://"@ + address@,
        own@.len() == 0 && port@.len() > 0 ==> url@ == "ws://"@ + address@ + ":"@ + port@,
{
    reveal_strlit("://");
    assert forall|i: int| !#[trigger] text::stands_at(address@, "://"@, i) by {
        if text::stands_at(address@, "://"@, i) {
            let part = address@.subrange(i, i + 3);
            assert(part[0] == ':' && part[1] == '/' && part[2] == '/');
            assert(address@[i] == ':');
        }
    }
    text::lemma_part_absent(address@, "://"@, 0);
}

/// An address on the internet keeps a WebSocket scheme that it names, and is
/// completed with the one of the build otherwise.
pub proof fn lemma_an_outer_address_is_completed(url: &str, rustls: bool, dialed: String)
    requires
        call_ensures(outer_ws_url, (url, rustls), dialed),
    ensures
        "ws://"@.is_prefix_of(url@) || "wss://"@.is_prefix_of(url@) ==> dialed@ == url@,
        !"ws://"@.is_prefix_of(url@) && !"wss://"@.is_prefix_of(url@) ==> dialed@ == (if rustls {
            "wss://"@
        } else {
            "ws://"@
        }) + url@,
{
    reveal_strlit("ws://");
    reveal_strlit("wss://");
    lemma_a_prefix_stands_at_the_front(url@, "ws://"@);
    lemma_a_prefix_stands_at_the_front(url@, "wss://"@);
}

/// A text begins with a part where that part stands at its front.
proof fn lemma_a_prefix_stands_at_the_front(s: Seq<char>, part: Seq<char>)
    ensures
        text::stands_at(s, part, 0) <==> part.is_prefix_of(s),
{
    if part.len() <= s.len() {
        assert(s.subrange(0, part.len() as int) =~= s.take(part.len() as int));
    }
}

/// The host is what stands between the scheme and the next colon, or the end.
pub proof fn lemma_the_host_stands_behind_the_scheme(
    url: &str,
    host: String,
    scheme: Seq<char>,
    name: Seq<char>,
    rest: Seq<char>,
)
    requires
        call_ensures(url_host, (url,), host),
        url@ == scheme + seq![':', '/', '/'] + name + rest,
        forall|i: int| 0 <= i < scheme.len() ==> #[trigger] scheme[i] != ':',
        forall|i: int| 0 <= i < name.len() ==> #[trigger] name[i] != ':',
        rest.len() > 0 ==> rest[0] == ':',
    ensures
        host@ == name,
{
    reveal_strlit("://");
    let s = url@;
    let at = scheme.len() as int;
    assert(s.subrange(at, at + 3) =~= "://"@);
    assert forall|i: int| 0 <= i < at implies !#[trigger] text::stands_at(s, "://"@, i) by {
        if text::stands_at(s, "://"@, i) {
            assert(s.subrange(i, i + 3)[0] == ':');
            assert(s[i] == scheme[i]);
        }
    }
    text::lemma_part_place_is(s, "://"@, 0, at);
    let behind = s.skip(at + 3);
    assert(behind =~= name + rest);
    text::lemma_first_place_is(behind, ':', 0, name.len() as int);
    assert(behind.take(name.len() as int) =~= name);
}

/// Without a scheme the whole text counts as the host.
pub proof fn lemma_without_a_scheme_the_host_is_all(url: &str, host: String)
    requires
        call_ensures(url_host, (url,), host),
        forall|i: int|
            0 <= i < url@.len() - 2 && #[trigger] url@[i] == ':' ==> !(url@[i + 1] == '/' && url@[i
                + 2] == '/'),
    ensures
        host@ == url@,
{
    reveal_strlit("://");
    assert forall|i: int| !#[trigger] text::stands_at(url@, "://"@, i) by {
        if text::stands_at(url@, "://"@, i) {
            let part = url@.subrange(i, i + 3);
            assert(part[0] == ':' && part[1] == '/' && part[2] == '/');
            assert(url@[i] == ':');
        }
    }
    text::lemma_part_absent(url@, "://"@, 0);
}

/// A number below 256 is written with as many digits as it takes: its
/// hundreds, its tens and its ones.
pub proof fn lemma_a_byte_is_written_in_base_ten(n: u8, s: String)
    requires
        call_ensures(byte_text, (n,), s),
    ensures
        s@.len() == if n < 10 {
            1int
        } else if n < 100 {
            2
        } else {
            3
        },
        s@.last() as u32 == 48 + n % 10,
        n >= 10 ==> s@[s@.len() - 2] as u32 == 48 + n / 10 % 10,
        n >= 100 ==> s@[0] as u32 == 48 + n / 100,
{
    reveal_with_fuel(text::digits_of, 3);
}

/// The last number of an address is read, with or without a port behind it.
pub proof fn lemma_the_last_number_is_read(
    ip: &str,
    octet: u8,
    head: Seq<char>,
    n: u8,
    number: String,
    rest: Seq<char>,
)
    requires
        call_ensures(get_ip, (ip,), octet),
        call_ensures(byte_text, (n,), number),
        ip@ == head + seq!['.'] + number@ + rest,
        rest.len() > 0 ==> rest[0] == ':',
        forall|i: int| 0 <= i < rest.len() ==> #[trigger] rest[i] != '.',
    ensures
        octet == n,
{
    text::lemma_digits_are_read_back(n as nat);
    lemma_the_last_octet_stands_behind_the_dot(ip@, head, number@, rest);
    assert(text::is_digit(number@[0]));
}

/// What stands behind the last dot of an address, where it holds neither a dot
/// nor a colon.
proof fn lemma_the_last_octet_stands_behind_the_dot(
    ip: Seq<char>,
    head: Seq<char>,
    part: Seq<char>,
    rest: Seq<char>,
)
    requires
        ip == head + seq!['.'] + part + rest,
        forall|i: int|
            0 <= i < part.len() ==> #[trigger] part[i] != '.' && part[i] != ':' || text::is_digit(
                part[i],
            ),
        rest.len() > 0 ==> rest[0] == ':',
        forall|i: int| 0 <= i < rest.len() ==> #[trigger] rest[i] != '.',
    ensures
        crate::ip::last_octet(ip) == part,
{
    let at = head.len() as int;
    let behind = part + rest;
    assert forall|i: int| at < i < ip.len() implies #[trigger] ip[i] != '.' by {
        assert(ip[i] == behind[i - at - 1]);
        if i - at - 1 < part.len() {
            assert(behind[i - at - 1] == part[i - at - 1]);
        } else {
            assert(behind[i - at - 1] == rest[i - at - 1 - part.len()]);
        }
    }
    text::lemma_last_place_is(ip, '.', ip.len() as int, at);
    assert(text::behind_last(ip, '.') =~= behind);
    assert forall|i: int| 0 <= i < part.len() implies #[trigger] behind[i] != ':' by {
        assert(behind[i] == part[i]);
    }
    text::lemma_first_place_is(behind, ':', 0, part.len() as int);
    assert(behind.take(part.len() as int) =~= part);
}

/// What is no number gives zero.
pub proof fn lemma_no_number_gives_zero(
    ip: &str,
    octet: u8,
    head: Seq<char>,
    part: Seq<char>,
    rest: Seq<char>,
    at: int,
)
    requires
        call_ensures(get_ip, (ip,), octet),
        ip@ == head + seq!['.'] + part + rest,
        forall|i: int| 0 <= i < part.len() ==> #[trigger] part[i] != '.' && part[i] != ':',
        part.len() > 0 ==> 0 <= at < part.len() && !digit(part[at]) && (at > 0 || part[0] != '+'),
        rest.len() > 0 ==> rest[0] == ':',
        forall|i: int| 0 <= i < rest.len() ==> #[trigger] rest[i] != '.',
    ensures
        octet == 0,
{
    lemma_the_last_octet_stands_behind_the_dot(ip@, head, part, rest);
    if part.len() > 0 {
        assert(!text::is_digit(part[at]));
        if part[0] == '+' {
            assert(part.skip(1)[at - 1] == part[at]);
        }
    }
}

} // verus!
