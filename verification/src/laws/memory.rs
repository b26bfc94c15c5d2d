//! What is kept: settings, the identity of a client, options, counts and waits.

use crate::common::{get_setting_by_key, remove_setting, set_setting};
use crate::connection_store::{
    client_id_from_value, info_from_value, info_to_value, keep_numeric, ConnectionStore,
    NativeDbConnectionStore, StoreSnapshot,
};
use crate::error::AtomicWebsocketError;
use crate::internal_client::ClientOptions;
use crate::internal_server::ServerOptions;
use crate::metrics::{Metrics, MetricsSnapshot};
use crate::middleware::{ChainStep, MiddlewareChain, MiddlewareResult};
use crate::retry::{double_up_to, ExponentialBackoff};
use crate::schema::Format;
use crate::types::InMemoryStorage;
use crate::{AtomicWebsocketType, Settings};
use std::time::Duration;
use vstd::prelude::*;
use vstd::utf8::*;

verus! {

/// Whether a text is made of the ten digits alone.
pub open spec fn digits_only(s: Seq<char>) -> bool {
    forall|i: int| 0 <= i < s.len() ==> 48 <= (#[trigger] s[i]) as u32 && s[i] as u32 <= 57
}

/// A port is kept exactly when it is made of digits alone.
pub proof fn lemma_a_numeric_port_is_kept(port: &str, kept: String)
    requires
        call_ensures(keep_numeric, (port,), kept),
    ensures
        digits_only(port@) ==> kept@ == port@,
        !digits_only(port@) ==> kept@.len() == 0,
{
    if digits_only(port@) {
        assert(crate::text::all_digits(port@));
    } else {
        let i = choose|i: int|
            0 <= i < port@.len() && !(48 <= (#[trigger] port@[i]) as u32 && port@[i] as u32 <= 57);
        assert(!crate::text::is_digit(port@[i]));
    }
}

/// Text that was stored as its bytes is the identifier that is read; bytes that
/// are no text, or no bytes at all, are read as no identifier.
pub proof fn lemma_an_identifier_is_read_back(value: Option<Vec<u8>>, id: String, name: Seq<char>)
    requires
        call_ensures(client_id_from_value, (value,), id),
    ensures
        (value matches Some(bytes) ==> bytes@ == encode_utf8(name) ==> id@ == name),
        (value matches Some(bytes) ==> !valid_utf8(bytes@) ==> id@.len() == 0),
        value is None ==> id@.len() == 0,
{
    encode_utf8_valid_utf8(name);
    encode_utf8_decode_utf8(name);
}

/// An address and a port are written as the two framed texts, or the address
/// alone as its bytes.
pub proof fn lemma_how_connect_info_is_written(
    format: Format,
    server_ip: &str,
    port: &str,
    value: Option<Vec<u8>>,
    ip_frame: Seq<u8>,
    port_frame: Seq<u8>,
)
    requires
        call_ensures(info_to_value, (format, server_ip, port), value),
        encode_utf8(server_ip@).len() <= u32::MAX,
        encode_utf8(port@).len() <= u32::MAX,
        crate::laws::messages::is_length_then(ip_frame, encode_utf8(server_ip@)),
        crate::laws::messages::is_length_then(port_frame, encode_utf8(port@)),
    ensures
        value is Some,
        format == Format::Bebop ==> value->Some_0@ == ip_frame + port_frame,
        format == Format::Raw ==> value->Some_0@ == encode_utf8(server_ip@),
{
    crate::laws::messages::lemma_one_frame(ip_frame, encode_utf8(server_ip@));
    crate::laws::messages::lemma_one_frame(port_frame, encode_utf8(port@));
}

/// An address and a port that were written are read back, also where more bytes
/// follow; a bare setting gives the address alone.
pub proof fn lemma_connect_info_is_read_back(
    format: Format,
    value: Vec<u8>,
    info: Option<(String, String)>,
    server_ip: Seq<char>,
    port: Seq<char>,
    ip_frame: Seq<u8>,
    port_frame: Seq<u8>,
    rest: Seq<u8>,
)
    requires
        call_ensures(info_from_value, (format, value), info),
        encode_utf8(server_ip).len() <= u32::MAX,
        encode_utf8(port).len() <= u32::MAX,
        crate::laws::messages::is_length_then(ip_frame, encode_utf8(server_ip)),
        crate::laws::messages::is_length_then(port_frame, encode_utf8(port)),
    ensures
        format == Format::Bebop && value@ == ip_frame + port_frame + rest ==> (info matches Some(
            found,
        ) && found.0@ == server_ip && found.1@ == port),
        format == Format::Raw && value@ == encode_utf8(server_ip) ==> (info matches Some(found)
            && found.0@ == server_ip && found.1@.len() == 0),
        format == Format::Raw && !valid_utf8(value@) ==> (info matches Some(found)
            && found.0@.len() == 0 && found.1@.len() == 0),
        format == Format::Bebop && value@.len() < 8 ==> info is None,
{
    crate::laws::messages::lemma_one_frame(ip_frame, encode_utf8(server_ip));
    crate::laws::messages::lemma_one_frame(port_frame, encode_utf8(port));
    encode_utf8_valid_utf8(server_ip);
    encode_utf8_decode_utf8(server_ip);
    crate::schema::lemma_server_connect_info_round_trip(server_ip, port, rest);
    let layout = crate::schema::ServerConnectInfo::layout_of(server_ip, port);
    assert(layout + rest =~= ip_frame + port_frame + rest);
}

/// What a store is told of a server it tells again; a table of bare settings
/// tells the address alone. The identifier is untouched.
pub proof fn lemma_a_stored_server_is_found_again(
    store: &mut NativeDbConnectionStore,
    server_ip: &str,
    port: &str,
    done: (),
    after: &NativeDbConnectionStore,
    info: Option<(String, String)>,
)
    requires
        call_ensures(
            <NativeDbConnectionStore as ConnectionStore>::set_server_connect_info,
            (store, server_ip, port),
            done,
        ),
        *after == *final(store),
        call_ensures(
            <NativeDbConnectionStore as ConnectionStore>::get_server_connect_info,
            (after,),
            info,
        ),
        encode_utf8(server_ip@).len() <= u32::MAX,
        encode_utf8(port@).len() <= u32::MAX,
    ensures
        info is Some,
        info->Some_0.0@ == server_ip@,
        old(store).written_as() == Format::Bebop ==> info->Some_0.1@ == port@,
        old(store).written_as() == Format::Raw ==> info->Some_0.1@.len() == 0,
        final(store).client_id() == old(store).client_id(),
        final(store).registered() == old(store).registered(),
        forall|key: Seq<char>|
            #![trigger final(store).settings().contains_key(key)]
            key != "ServerConnectInfo"@ ==> {
                &&& final(store).settings().contains_key(key) <==> old(
                    store
                ).settings().contains_key(key)
                &&& final(store).settings()[key] == old(store).settings()[key]
            },
{
}

/// Forgetting a server leaves no address. The port that was told before stays
/// if it is a number; a table of bare settings keeps nothing.
pub proof fn lemma_a_forgotten_server_leaves_its_port(
    before: &NativeDbConnectionStore,
    told: Option<(String, String)>,
    store: &mut NativeDbConnectionStore,
    server_ip: &str,
    done: (),
    after: &NativeDbConnectionStore,
    info: Option<(String, String)>,
)
    requires
        *before == *old(store),
        call_ensures(
            <NativeDbConnectionStore as ConnectionStore>::get_server_connect_info,
            (before,),
            told,
        ),
        call_ensures(
            <NativeDbConnectionStore as ConnectionStore>::clear_server_ip,
            (store, server_ip),
            done,
        ),
        *after == *final(store),
        call_ensures(
            <NativeDbConnectionStore as ConnectionStore>::get_server_connect_info,
            (after,),
            info,
        ),
        told matches Some(found) ==> encode_utf8(found.1@).len() <= u32::MAX,
    ensures
        old(store).written_as() == Format::Raw ==> info is None,
        old(store).written_as() == Format::Bebop ==> (info is Some <==> told is Some),
        old(store).written_as() == Format::Bebop && told is Some ==> {
            &&& info->Some_0.0@.len() == 0
            &&& digits_only(told->Some_0.1@) ==> info->Some_0.1@ == told->Some_0.1@
            &&& !digits_only(told->Some_0.1@) ==> info->Some_0.1@.len() == 0
        },
        final(store).client_id() == old(store).client_id(),
{
    crate::wire::lemma_empty_fits();
    if let Some(found) = told {
        let port = found.1@;
        if digits_only(port) {
            assert(crate::text::all_digits(port));
        } else {
            let i = choose|i: int|
                0 <= i < port.len() && !(48 <= (#[trigger] port[i]) as u32 && port[i] as u32
                    <= 57);
            assert(!crate::text::is_digit(port[i]));
        }
    }
}

/// A client gets an identifier once: 21 characters, each a letter, a digit, an
/// underscore or a hyphen. It keeps the one that it has.
pub proof fn lemma_an_identifier_is_given_once(
    before: &NativeDbConnectionStore,
    had: String,
    store: &mut NativeDbConnectionStore,
    done: (),
    after: &NativeDbConnectionStore,
    has: String,
    i: int,
)
    requires
        *before == *old(store),
        call_ensures(
            <NativeDbConnectionStore as ConnectionStore>::get_client_id,
            (before,),
            had,
        ),
        call_ensures(
            <NativeDbConnectionStore as ConnectionStore>::ensure_client_id,
            (store,),
            done,
        ),
        *after == *final(store),
        call_ensures(<NativeDbConnectionStore as ConnectionStore>::get_client_id, (after,), has),
    ensures
        final(store).settings().contains_key("ClientId"@),
        old(store).settings().contains_key("ClientId"@) ==> has@ == had@ && final(store).settings()
            == old(store).settings(),
        !old(store).settings().contains_key("ClientId"@) ==> {
            &&& has@.len() == 21
            &&& 0 <= i < 21 ==> {
                ||| 48 <= has@[i] as u32 && has@[i] as u32 <= 57
                ||| 65 <= has@[i] as u32 && has@[i] as u32 <= 90
                ||| 97 <= has@[i] as u32 && has@[i] as u32 <= 122
                ||| has@[i] as u32 == 95
                ||| has@[i] as u32 == 45
            }
        },
{
    if !old(store).settings().contains_key("ClientId"@) && 0 <= i < 21 {
        assert(crate::connection_store::url_safe(has@[i]));
    }
}

/// A snapshot tells what it was told last, and passes on all that it was told,
/// in order.
pub proof fn lemma_a_snapshot_tells_what_it_was_told(
    snapshot: &mut StoreSnapshot,
    server_ip: &str,
    port: &str,
    set: (),
    after: &StoreSnapshot,
    info: Option<(String, String)>,
)
    requires
        call_ensures(
            <StoreSnapshot as ConnectionStore>::set_server_connect_info,
            (snapshot, server_ip, port),
            set,
        ),
        *after == *final(snapshot),
        call_ensures(<StoreSnapshot as ConnectionStore>::get_server_connect_info, (after,), info),
    ensures
        info is Some,
        info->Some_0.0@ == server_ip@,
        info->Some_0.1@ == port@,
        final(snapshot).client_id() == old(snapshot).client_id(),
        final(snapshot).changes().len() == old(snapshot).changes().len() + 1,
        final(snapshot).changes().drop_last() == old(snapshot).changes(),
        final(snapshot).changes().last() == crate::connection_store::ChangeView::Remember(
            server_ip@,
            port@,
        ),
{
}

/// A snapshot that is to forget a server tells no address and keeps a port that
/// is a number.
pub proof fn lemma_a_snapshot_forgets_the_address(
    before: &StoreSnapshot,
    told: Option<(String, String)>,
    snapshot: &mut StoreSnapshot,
    server_ip: &str,
    done: (),
    after: &StoreSnapshot,
    info: Option<(String, String)>,
)
    requires
        *before == *old(snapshot),
        call_ensures(<StoreSnapshot as ConnectionStore>::get_server_connect_info, (before,), told),
        call_ensures(
            <StoreSnapshot as ConnectionStore>::clear_server_ip,
            (snapshot, server_ip),
            done,
        ),
        *after == *final(snapshot),
        call_ensures(<StoreSnapshot as ConnectionStore>::get_server_connect_info, (after,), info),
    ensures
        info is Some <==> told is Some,
        told is Some ==> {
            &&& info->Some_0.0@.len() == 0
            &&& digits_only(told->Some_0.1@) ==> info->Some_0.1@ == told->Some_0.1@
            &&& !digits_only(told->Some_0.1@) ==> info->Some_0.1@.len() == 0
        },
        final(snapshot).changes().len() == old(snapshot).changes().len() + 1,
        final(snapshot).changes().last() == crate::connection_store::ChangeView::Forget(
            server_ip@,
        ),
{
    if let Some(found) = told {
        let port = found.1@;
        if digits_only(port) {
            assert(crate::text::all_digits(port));
        } else {
            let i = choose|i: int|
                0 <= i < port.len() && !(48 <= (#[trigger] port[i]) as u32 && port[i] as u32
                    <= 57);
            assert(!crate::text::is_digit(port[i]));
        }
    }
}

/// A setting that was put in is found under its name, and no other setting
/// changes.
pub proof fn lemma_a_setting_is_found_again(
    before: &InMemoryStorage,
    other: &str,
    had: Option<&Vec<u8>>,
    storage: &mut InMemoryStorage,
    key: String,
    value: Vec<u8>,
    done: (),
    after: &InMemoryStorage,
    has: Option<&Vec<u8>>,
)
    requires
        *before == *old(storage),
        call_ensures(InMemoryStorage::get, (before, other), had),
        call_ensures(InMemoryStorage::insert, (storage, key, value), done),
        *after == *final(storage),
        call_ensures(InMemoryStorage::get, (after, other), has),
    ensures
        other@ == key@ ==> has is Some && has->Some_0@ == value@,
        other@ != key@ ==> (has is Some <==> had is Some) && (has is Some ==> has->Some_0@
            == had->Some_0@),
{
}

/// A setting that was taken out is handed back and found no more, and no other
/// setting changes.
pub proof fn lemma_a_setting_is_taken_out(
    before: &InMemoryStorage,
    other: &str,
    had: Option<&Vec<u8>>,
    storage: &mut InMemoryStorage,
    key: &str,
    taken: Option<Vec<u8>>,
    after: &InMemoryStorage,
    has: Option<&Vec<u8>>,
)
    requires
        *before == *old(storage),
        call_ensures(InMemoryStorage::get, (before, other), had),
        call_ensures(InMemoryStorage::remove, (storage, key), taken),
        *after == *final(storage),
        call_ensures(InMemoryStorage::get, (after, other), has),
    ensures
        other@ == key@ ==> has is None && (taken is Some <==> had is Some) && (taken is Some
            ==> taken->Some_0@ == had->Some_0@),
        other@ != key@ ==> (has is Some <==> had is Some) && (has is Some ==> has->Some_0@
            == had->Some_0@),
{
}

/// The options that a client has when none are chosen.
pub proof fn lemma_default_client_options(options: ClientOptions)
    requires
        call_ensures(<ClientOptions as Default>::default, (), options),
    ensures
        options.use_ping,
        options.url@.len() == 0,
        options.retry_seconds == 30,
        !options.use_keep_ip,
        options.connect_timeout_seconds == 3,
        options.atomic_websocket_type == AtomicWebsocketType::Internal,
        options.use_tls,
        options.handler_buffer_size == 256,
        options.status_buffer_size == 8,
        options.per_connection_buffer_size == 8,
        options.spillover_buffer_size == 1024,
        !options.use_scan_discovery,
        options.scan_timeout_seconds == 60,
{
}

/// The options that a server has when none are chosen.
pub proof fn lemma_default_server_options(options: ServerOptions)
    requires
        call_ensures(<ServerOptions as Default>::default, (), options),
    ensures
        options.use_ping,
        options.proxy_ping == -1,
        options.client_timeout_seconds == 30,
        options.client_check_interval_secs == 15,
        options.per_connection_buffer_size == 8,
        options.handler_buffer_size == 1024,
        options.spillover_buffer_size == 1024,
        options.max_connections == 512,
{
}

/// Whether one counter has become one more, or zero from the largest number.
pub open spec fn one_more(before: u64, after: u64) -> bool {
    before < 0xffff_ffff_ffff_ffff && after == before + 1 || before == 0xffff_ffff_ffff_ffff
        && after == 0
}

/// Each counter counts its own and nothing else: messages.
pub proof fn lemma_messages_are_counted(
    sent: &mut Metrics,
    sent_done: (),
    received: &mut Metrics,
    received_done: (),
    dropped: &mut Metrics,
    dropped_done: (),
    failed: &mut Metrics,
    failed_done: (),
)
    requires
        call_ensures(Metrics::inc_messages_sent, (sent,), sent_done),
        call_ensures(Metrics::inc_messages_received, (received,), received_done),
        call_ensures(Metrics::inc_messages_dropped, (dropped,), dropped_done),
        call_ensures(Metrics::inc_send_errors, (failed,), failed_done),
    ensures
        one_more(old(sent).messages_sent, final(sent).messages_sent),
        *final(sent) == (Metrics { messages_sent: final(sent).messages_sent, ..*old(sent) }),
        one_more(old(received).messages_received, final(received).messages_received),
        *final(received) == (Metrics {
            messages_received: final(received).messages_received,
            ..*old(received)
        }),
        one_more(old(dropped).messages_dropped, final(dropped).messages_dropped),
        *final(dropped) == (Metrics {
            messages_dropped: final(dropped).messages_dropped,
            ..*old(dropped)
        }),
        one_more(old(failed).send_errors, final(failed).send_errors),
        *final(failed) == (Metrics { send_errors: final(failed).send_errors, ..*old(failed) }),
{
}

/// Each counter counts its own and nothing else: connections. What is active
/// never falls below zero.
pub proof fn lemma_connections_are_counted(
    total: &mut Metrics,
    total_done: (),
    up: &mut Metrics,
    up_done: (),
    down: &mut Metrics,
    down_done: (),
    again: &mut Metrics,
    again_done: (),
)
    requires
        call_ensures(Metrics::inc_connections_total, (total,), total_done),
        call_ensures(Metrics::inc_connections_active, (up,), up_done),
        call_ensures(Metrics::dec_connections_active, (down,), down_done),
        call_ensures(Metrics::inc_reconnections, (again,), again_done),
    ensures
        one_more(old(total).connections_total, final(total).connections_total),
        *final(total) == (Metrics {
            connections_total: final(total).connections_total,
            ..*old(total)
        }),
        one_more(old(up).connections_active, final(up).connections_active),
        *final(up) == (Metrics { connections_active: final(up).connections_active, ..*old(up) }),
        old(down).connections_active > 0 ==> final(down).connections_active == old(
            down
        ).connections_active - 1,
        old(down).connections_active == 0 ==> final(down).connections_active == 0,
        *final(down) == (Metrics {
            connections_active: final(down).connections_active,
            ..*old(down)
        }),
        one_more(old(again).reconnections, final(again).reconnections),
        *final(again) == (Metrics { reconnections: final(again).reconnections, ..*old(again) }),
{
}

/// All counters start at zero, and are read as they stand.
pub proof fn lemma_counters_start_at_zero(fresh: Metrics, counted: &Metrics, read: MetricsSnapshot)
    requires
        call_ensures(Metrics::new, (), fresh),
        call_ensures(Metrics::snapshot, (counted,), read),
    ensures
        fresh.messages_sent == 0,
        fresh.messages_received == 0,
        fresh.messages_dropped == 0,
        fresh.connections_total == 0,
        fresh.connections_active == 0,
        fresh.reconnections == 0,
        fresh.send_errors == 0,
        read.messages_sent == counted.messages_sent,
        read.messages_received == counted.messages_received,
        read.messages_dropped == counted.messages_dropped,
        read.connections_total == counted.connections_total,
        read.connections_active == counted.connections_active,
        read.reconnections == counted.reconnections,
        read.send_errors == counted.send_errors,
{
}

/// Each wait is the one that was due; the next one is twice as long, but no
/// longer than the limit. When as many as allowed have been made there is none.
pub proof fn lemma_waits_double(
    backoff: &mut ExponentialBackoff,
    wait: Option<Duration>,
)
    requires
        call_ensures(ExponentialBackoff::next_wait, (backoff,), wait),
    ensures
        wait is Some <==> old(backoff).count < old(backoff).max_count,
        wait is Some ==> wait == Some(old(backoff).current) && final(backoff).count == old(
            backoff
        ).count + 1,
        wait is None ==> *final(backoff) == *old(backoff),
        ({
            let due = crate::retry::nanos(old(backoff).current);
            let next = crate::retry::nanos(final(backoff).current);
            let limit = crate::retry::nanos(old(backoff).max);
            wait is Some ==> next <= 2 * due && next <= limit && (next == 2 * due || next == limit)
        }),
        final(backoff).initial == old(backoff).initial,
        final(backoff).max == old(backoff).max,
        final(backoff).max_count == old(backoff).max_count,
{
}

/// A fresh backoff waits the first wait first, has made none, and may make as
/// many as asked for; one that starts over is as it was at first.
pub proof fn lemma_a_backoff_starts_over(
    initial_ms: u64,
    max_secs: u64,
    max_count: u32,
    fresh: ExponentialBackoff,
    backoff: &mut ExponentialBackoff,
    done: (),
)
    requires
        call_ensures(ExponentialBackoff::new, (initial_ms, max_secs, max_count), fresh),
        call_ensures(ExponentialBackoff::reset, (backoff,), done),
    ensures
        crate::retry::nanos(fresh.current) == initial_ms * 1000000,
        crate::retry::nanos(fresh.initial) == initial_ms * 1000000,
        crate::retry::nanos(fresh.max) == max_secs * 1000000000,
        fresh.count == 0,
        fresh.max_count == max_count,
        final(backoff).count == 0,
        final(backoff).current == old(backoff).initial,
        final(backoff).initial == old(backoff).initial,
        final(backoff).max == old(backoff).max,
        final(backoff).max_count == old(backoff).max_count,
{
}

/// The wait after so many others is the first one doubled so many times, or the
/// limit where that is shorter.
pub proof fn lemma_the_wait_after_so_many(initial: nat, max: nat, k: nat)
    requires
        initial <= max,
    ensures
        crate::retry::kth_wait(initial, max, k) as int == if initial
            * vstd::arithmetic::power2::pow2(k) <= max {
            (initial * vstd::arithmetic::power2::pow2(k)) as int
        } else {
            max as int
        },
    decreases k,
{
    if k == 0 {
        vstd::arithmetic::power2::lemma2_to64();
        assert(initial * 1 == initial);
    } else {
        let before = (k - 1) as nat;
        lemma_the_wait_after_so_many(initial, max, before);
        vstd::arithmetic::power2::lemma_pow2_unfold(k);
        let p = vstd::arithmetic::power2::pow2(before);
        assert(initial * (2 * p) == 2 * (initial * p)) by (nonlinear_arith);
    }
}

/// A chain without middlewares passes; one with some asks the first. An
/// objection stops it at once; the last agreement passes it, and any other asks
/// the next.
pub proof fn lemma_middlewares_are_asked_in_turn(
    count: usize,
    started: (MiddlewareChain, ChainStep),
    chain: &mut MiddlewareChain,
    result: MiddlewareResult,
    step: ChainStep,
    door: &mut MiddlewareChain,
    allowed: bool,
    door_step: ChainStep,
)
    requires
        call_ensures(MiddlewareChain::start, (count,), started),
        old(chain).agreed() < old(chain).count(),
        old(chain).count() <= usize::MAX,
        call_ensures(MiddlewareChain::on_message_answer, (chain, result), step),
        old(door).agreed() < old(door).count(),
        old(door).count() <= usize::MAX,
        call_ensures(MiddlewareChain::on_connect_answer, (door, allowed), door_step),
    ensures
        started.0.count() == count,
        started.0.agreed() == 0,
        count == 0 ==> started.1 == ChainStep::Pass,
        count > 0 ==> started.1 == ChainStep::Ask(0),
        step == ChainStep::Stop <==> result == MiddlewareResult::Stop,
        step == ChainStep::Pass <==> result == MiddlewareResult::Continue && final(chain).agreed()
            == final(chain).count(),
        (step matches ChainStep::Ask(i) ==> i == final(chain).agreed() && i == old(chain).agreed()
            + 1),
        final(chain).count() == old(chain).count(),
        door_step == ChainStep::Stop <==> !allowed,
        door_step == ChainStep::Pass <==> allowed && final(door).agreed() == final(door).count(),
        (door_step matches ChainStep::Ask(i) ==> i == final(door).agreed() && i == old(
            door
        ).agreed() + 1),
        final(door).count() == old(door).count(),
{
    assert(!Seq::<bool>::empty().contains(false));
}

/// An error is told as what kind it is and then its own words.
pub proof fn lemma_errors_are_told(err: &AtomicWebsocketError, outside: &str, told: String)
    requires
        call_ensures(AtomicWebsocketError::message_with, (err, outside), told),
    ensures
        told@ == match err {
            AtomicWebsocketError::Database(words) => "Database error: "@ + words@,
            AtomicWebsocketError::Serialization(words) => "Serialization error: "@ + words@,
            AtomicWebsocketError::Connection(words) => "Connection error: "@ + words@,
            AtomicWebsocketError::WebSocket(_) => "WebSocket error: "@ + outside@,
            AtomicWebsocketError::ChannelSend(words) => "Channel send error: "@ + words@,
            AtomicWebsocketError::ChannelClosed => "Channel closed"@,
            AtomicWebsocketError::Config(words) => "Configuration error: "@ + words@,
            AtomicWebsocketError::Timeout(words) => "Operation timed out: "@ + words@,
            AtomicWebsocketError::Io(_) => "IO error: "@ + outside@,
        },
{
    if err is ChannelClosed {
        assert(told@ =~= "Channel closed"@);
    }
}

/// Settings that are kept are found under their names; those that are dropped
/// are not, and whether there was one is told.
pub proof fn lemma_settings_are_kept_and_dropped(
    keeping: &mut InMemoryStorage,
    settings: Settings,
    kept: Result<bool, AtomicWebsocketError>,
    after: &InMemoryStorage,
    wanted: String,
    found: Result<Option<Settings>, AtomicWebsocketError>,
    dropping: &mut InMemoryStorage,
    key: String,
    dropped: Result<bool, AtomicWebsocketError>,
    rest: &InMemoryStorage,
    gone: Result<Option<Settings>, AtomicWebsocketError>,
)
    requires
        call_ensures(set_setting, (keeping, settings), kept),
        *after == *final(keeping),
        call_ensures(get_setting_by_key, (after, wanted), found),
        call_ensures(remove_setting, (dropping, key), dropped),
        *rest == *final(dropping),
        call_ensures(get_setting_by_key, (rest, wanted), gone),
    ensures
        kept == Ok::<bool, AtomicWebsocketError>(true),
        found is Ok,
        wanted@ == settings.key@ ==> (found->Ok_0 matches Some(back) && back.key@ == settings.key@
            && back.value@ == settings.value@),
        wanted@ != settings.key@ ==> (found->Ok_0 is Some <==> old(keeping)@.contains_key(
            wanted@,
        )),
        dropped == Ok::<bool, AtomicWebsocketError>(old(dropping)@.contains_key(key@)),
        gone is Ok,
        wanted@ == key@ ==> gone->Ok_0 is None,
        wanted@ != key@ ==> (gone->Ok_0 is Some <==> old(dropping)@.contains_key(wanted@)),
{
}

/// The identifier of a client is the text under its name in a table of
/// settings, and empty where there is none.
pub proof fn lemma_the_identifier_in_a_table(db: &InMemoryStorage, id: String, name: Seq<char>)
    requires
        call_ensures(crate::get_internal_websocket::get_id, (db,), id),
    ensures
        !db@.contains_key("ClientId"@) ==> id@.len() == 0,
        db@.contains_key("ClientId"@) && db@["ClientId"@] == encode_utf8(name) ==> id@ == name,
        db@.contains_key("ClientId"@) && !valid_utf8(db@["ClientId"@]) ==> id@.len() == 0,
{
    encode_utf8_valid_utf8(name);
    encode_utf8_decode_utf8(name);
}

/// The identifier of a client in a list of settings is the text under the first
/// of that name.
pub proof fn lemma_the_identifier_in_a_list(
    settings: &Vec<Settings>,
    id: String,
    at: int,
    name: Seq<char>,
)
    requires
        call_ensures(crate::get_websocket::get_id, (settings,), id),
        0 <= at < settings@.len(),
        settings@[at].key@ == "ClientId"@,
        settings@[at].value@ == encode_utf8(name),
        forall|j: int| 0 <= j < at ==> (#[trigger] settings@[j]).key@ != "ClientId"@,
    ensures
        id@ == name,
{
    encode_utf8_valid_utf8(name);
    encode_utf8_decode_utf8(name);
    let i = choose|i: int| #[trigger]
        crate::get_websocket::first_id(settings@, i) && id@ == decode_utf8(settings@[i].value@);
    assert(crate::get_websocket::first_id(settings@, i));
    assert(i == at);
}

/// A duration is doubled up to a limit.
pub proof fn lemma_a_duration_doubles_up_to_a_limit(
    current: Duration,
    max: Duration,
    next: Duration,
)
    requires
        call_ensures(double_up_to, (current, max), next),
    ensures
        2 * crate::retry::nanos(current) <= crate::retry::nanos(max) ==> crate::retry::nanos(next)
            == 2 * crate::retry::nanos(current),
        2 * crate::retry::nanos(current) > crate::retry::nanos(max) ==> crate::retry::nanos(next)
            == crate::retry::nanos(max),
{
}

/// The usual backoff: five waits that start at 50 milliseconds and double up to
/// one second. It is used up when as many waits as allowed have been made.
pub proof fn lemma_the_usual_backoff(
    usual: ExponentialBackoff,
    backoff: &ExponentialBackoff,
    n: u32,
    none_left: bool,
)
    requires
        call_ensures(ExponentialBackoff::default_retry, (), usual),
        call_ensures(ExponentialBackoff::count, (backoff,), n),
        call_ensures(ExponentialBackoff::is_exhausted, (backoff,), none_left),
    ensures
        crate::retry::nanos(usual.current) == 50000000,
        crate::retry::nanos(usual.initial) == 50000000,
        crate::retry::nanos(usual.max) == 1000000000,
        usual.count == 0,
        usual.max_count == 5,
        n == backoff.count,
        none_left <==> backoff.count >= backoff.max_count,
{
}

} // verus!
