//! When a client pings, reconnects, dials and scans.

use crate::connection_store::ConnectionStore;
use crate::internal_client::{
    begin_scan, begin_scan_and_connect, check_health, finish_scan, get_internal_connect,
    get_internal_connect_without_store, get_outer_connect, AtomicClient, ClientOptions,
    ConnectPlan, Health,
    HealthAction, PingLoop, ScanDecision,
};
use crate::get_internal_websocket::TryConnectGuard;
use crate::schema::ServerConnectInfo;
use crate::server_sender::{to_ws_url, SenderStatus, SenderView, ServerSender};
use vstd::prelude::*;
use vstd::utf8::*;

verus! {

/// A server that was heard is dead once it has been silent for more than four
/// times the time between checks, and quiet above twice that time up to there.
/// One that was never heard is neither.
pub proof fn lemma_the_verdict_follows_the_silence(
    received: i64,
    retry_seconds: u64,
    now: i64,
    health: Health,
)
    requires
        call_ensures(check_health, (received, retry_seconds, now), health),
    ensures
        received > 0 ==> {
            &&& health == Health::Dead <==> now - received > 4 * retry_seconds
            &&& health == Health::Quiet <==> 2 * retry_seconds < now - received <= 4
                * retry_seconds
            &&& health == Health::Good <==> now - received <= 2 * retry_seconds
        },
        received <= 0 ==> health == Health::Good,
{
}

/// A server on the local network that has been silent for more than four times
/// the time between checks is reported as lost and connected to again, and the
/// next check comes after twice the time, up to eight times the usual.
pub proof fn lemma_a_dead_server_is_connected_to_again<S: ConnectionStore>(
    ping_loop: &mut PingLoop,
    sender: &mut ServerSender,
    store: &mut S,
    options: &ClientOptions,
    now: i64,
    action: HealthAction,
)
    requires
        call_ensures(
            PingLoop::internal_ping_loop_cheker::<S>,
            (ping_loop, sender, store, options, now),
            action,
        ),
    ensures
        action is Reconnect <==> old(sender)@.received > 0 && now - old(sender)@.received > 4
            * old(ping_loop).base(),
        action is Reconnect ==> {
            &&& final(sender)@.statuses == old(sender)@.statuses.push(
                SenderStatus::Disconnected,
            ).push(SenderStatus::Reconnecting)
            &&& options.use_keep_ip ==> final(sender)@.server_ip == old(sender)@.server_ip
                && final(sender)@.sx == old(sender)@.sx && final(store).connect_info() == old(store).connect_info()
            &&& !options.use_keep_ip ==> final(sender)@.server_ip.len() == 0 && final(store).connect_info() == old(store).info_after_clear()
            &&& !options.use_keep_ip && old(sender)@.server_ip.len() > 0 ==> final(sender)@.sx
                is None
            &&& old(sender)@.metrics.reconnections < u64::MAX ==> final(sender)@.metrics.reconnections == old(sender)@.metrics.reconnections + 1
            &&& final(sender)@.received == old(sender)@.received
            &&& 8 * old(ping_loop).base() <= u64::MAX ==> final(ping_loop).wait() == if 2 * old(ping_loop).wait() <= 8 * old(ping_loop).base() {
                2 * old(ping_loop).wait()
            } else {
                8 * old(ping_loop).base()
            }
        },
        !(action is Reconnect) ==> final(sender)@ == old(sender)@ && final(store).connect_info()
            == old(store).connect_info(),
        final(ping_loop).base() == old(ping_loop).base(),
{
}

/// A server on the local network that has been silent for more than twice the
/// time between checks, and not for more than four times, is pinged, if pings
/// are used; the rhythm stays. While it is heard nothing is done, and the
/// rhythm is the usual one.
pub proof fn lemma_a_quiet_server_is_pinged<S: ConnectionStore>(
    ping_loop: &mut PingLoop,
    sender: &mut ServerSender,
    store: &mut S,
    options: &ClientOptions,
    now: i64,
    action: HealthAction,
    frame: Seq<u8>,
)
    requires
        call_ensures(
            PingLoop::internal_ping_loop_cheker::<S>,
            (ping_loop, sender, store, options, now),
            action,
        ),
        encode_utf8(old(store).client_id()).len() <= u32::MAX,
        crate::laws::messages::is_length_then(frame, encode_utf8(old(store).client_id())),
    ensures
        ({
            let silence = now - old(sender)@.received;
            let quiet = old(sender)@.received > 0 && 2 * old(ping_loop).base() < silence <= 4
                * old(ping_loop).base();
            let good = old(sender)@.received <= 0 || silence <= 2 * old(ping_loop).base();
            &&& action is Ping <==> quiet && options.use_ping
            &&& action matches HealthAction::Ping(ping) ==> crate::common::is_binary(ping)
                && crate::common::payload(ping) == seq![16u8, 39u8] + frame + seq![
                0u8,
                0u8,
                0u8,
                0u8,
            ]
            &&& quiet ==> final(ping_loop).wait() == old(ping_loop).wait()
            &&& good ==> action is Rest && final(ping_loop).wait() == old(ping_loop).base()
        }),
{
    crate::laws::messages::lemma_own_bytes(old(store).client_id(), frame);
}

/// The same of a server on the internet, whose stored address is left alone.
pub proof fn lemma_a_dead_outer_server_is_connected_to_again<S: ConnectionStore>(
    ping_loop: &mut PingLoop,
    sender: &mut ServerSender,
    store: &S,
    options: &ClientOptions,
    now: i64,
    action: HealthAction,
    frame: Seq<u8>,
)
    requires
        call_ensures(
            PingLoop::outer_ping_loop_cheker::<S>,
            (ping_loop, sender, store, options, now),
            action,
        ),
        encode_utf8(store.client_id()).len() <= u32::MAX,
        crate::laws::messages::is_length_then(frame, encode_utf8(store.client_id())),
    ensures
        ({
            let silence = now - old(sender)@.received;
            let dead = old(sender)@.received > 0 && silence > 4 * old(ping_loop).base();
            let quiet = old(sender)@.received > 0 && 2 * old(ping_loop).base() < silence <= 4
                * old(ping_loop).base();
            &&& action is Reconnect <==> dead
            &&& action is Ping <==> quiet && options.use_ping
            &&& action matches HealthAction::Ping(ping) ==> crate::common::is_binary(ping)
                && crate::common::payload(ping) == seq![16u8, 39u8] + frame + seq![
                0u8,
                0u8,
                0u8,
                0u8,
            ]
            &&& quiet ==> final(ping_loop).wait() == old(ping_loop).wait()
            &&& !dead && !quiet ==> action is Rest && final(ping_loop).wait() == old(ping_loop).base()
            &&& dead && 8 * old(ping_loop).base() <= u64::MAX ==> final(ping_loop).wait() == if 2
                * old(ping_loop).wait() <= 8 * old(ping_loop).base() {
                2 * old(ping_loop).wait()
            } else {
                8 * old(ping_loop).base()
            }
            &&& !dead ==> final(sender)@ == old(sender)@
            &&& dead ==> final(sender)@.statuses == old(sender)@.statuses.push(
                SenderStatus::Disconnected,
            ).push(SenderStatus::Reconnecting)
            &&& dead && options.use_keep_ip ==> final(sender)@.server_ip == old(sender)@.server_ip
                && final(sender)@.sx == old(sender)@.sx
            &&& dead && !options.use_keep_ip ==> final(sender)@.server_ip.len() == 0
        }),
{
    crate::laws::messages::lemma_own_bytes(store.client_id(), frame);
}

/// Checks begin at the time between checks that the options name, and never
/// come more often than every second.
pub proof fn lemma_the_rhythm_of_the_options(options: &ClientOptions, ping_loop: PingLoop)
    requires
        call_ensures(PingLoop::new, (options,), ping_loop),
    ensures
        ping_loop.wait() == ping_loop.base(),
        options.retry_seconds >= 1 ==> ping_loop.base() == options.retry_seconds,
        options.retry_seconds == 0 ==> ping_loop.base() == 1,
{
}

/// An address counts as good while the server has been silent for less than
/// twice the time between checks.
pub proof fn lemma_an_address_is_good_while_the_server_is_heard(
    sender: &ServerSender,
    now: i64,
    good: bool,
)
    requires
        call_ensures(ServerSender::is_valid_server_ip_at, (sender, now), good),
    ensures
        good ==> sender@.server_ip.len() > 0,
        sender@.server_ip.len() > 0 && sender@.options.retry_seconds >= 1 ==> (good <==> now
            - sender@.received < 2 * sender@.options.retry_seconds),
        sender@.server_ip.len() > 0 && sender@.options.retry_seconds == 0 ==> (good <==> now
            - sender@.received < 2),
        good == sender@.valid_at(now),
{
}

/// Whether this client has to do something to be connected: no attempt is under
/// way, and its address does not count as good.
pub open spec fn has_to_connect(sender: SenderView, now: i64) -> bool {
    &&& !sender.is_try_connect
    &&& sender.server_ip.len() == 0 || now - sender.received >= 2 * (
    if sender.options.retry_seconds == 0 {
        1
    } else {
        sender.options.retry_seconds as int
    })
}

/// A client that has to connect dials the stored address, at the port that is
/// given or else the stored one.
pub proof fn lemma_a_stored_address_is_dialed<S: ConnectionStore>(
    input: Option<ServerConnectInfo<'_>>,
    store: &mut S,
    sender: &mut ServerSender,
    options: &ClientOptions,
    now: i64,
    plan: ConnectPlan,
    address: &str,
    port: &str,
    url: String,
)
    requires
        call_ensures(get_internal_connect::<S>, (input, store, sender, options, now), plan),
        has_to_connect(old(sender)@, now),
        old(store).connect_info() matches Some((stored_ip, stored_port)) && stored_ip == address@
            && stored_ip.len() > 0 && port@ == match input {
            Some(info) => info.port@,
            None => stored_port,
        },
        call_ensures(to_ws_url, (address, port), url),
    ensures
        plan matches ConnectPlan::Dial(dialed) && dialed@ == url@,
        final(sender)@ == (SenderView {
            statuses: old(sender)@.statuses.push(SenderStatus::Connecting),
            ..old(sender)@
        }),
        final(store).connect_info() == old(store).connect_info(),
{
}

/// A client that has to connect and knows no address scans for the port, if
/// that is allowed and no scan is under way; where it is not allowed the client
/// reports that it is disconnected.
pub proof fn lemma_without_an_address_the_network_is_scanned<S: ConnectionStore>(
    input: Option<ServerConnectInfo<'_>>,
    store: &mut S,
    sender: &mut ServerSender,
    options: &ClientOptions,
    now: i64,
    plan: ConnectPlan,
)
    requires
        call_ensures(get_internal_connect::<S>, (input, store, sender, options, now), plan),
        has_to_connect(old(sender)@, now),
        old(store).connect_info() matches Some((stored_ip, _)) ==> stored_ip.len() == 0,
    ensures
        input is None && old(store).connect_info() is None ==> plan is Done && final(sender)@.statuses == old(sender)@.statuses.push(SenderStatus::Disconnected),
        input is Some || old(store).connect_info() is Some ==> {
            &&& plan is Scan <==> options.use_scan_discovery && !old(sender)@.is_scanning
            &&& !(plan is Dial)
            &&& plan matches ConnectPlan::Scan(port, seconds) ==> {
                &&& port@ == match input {
                    Some(info) => info.port@,
                    None => old(store).connect_info()->Some_0.1,
                }
                &&& options.scan_timeout_seconds >= 1 ==> seconds == options.scan_timeout_seconds
                &&& options.scan_timeout_seconds == 0 ==> seconds == 1
                &&& final(sender)@ == (SenderView { is_scanning: true, ..old(sender)@ })
            }
            &&& !options.use_scan_discovery ==> final(sender)@ == (SenderView {
                statuses: old(sender)@.statuses.push(SenderStatus::Disconnected),
                ..old(sender)@
            })
            &&& options.use_scan_discovery && old(sender)@.is_scanning ==> final(sender)@ == old(sender)@
        },
        input is Some && old(store).connect_info() is None ==> final(store).connect_info() == old(store).info_after_set(Seq::empty(), input->Some_0.port@),
        input is None || old(store).connect_info() is Some ==> final(store).connect_info() == old(store).connect_info(),
{
}

/// A client that is connected, or is connecting, plans nothing; one whose
/// address counts as good reports so.
pub proof fn lemma_a_good_connection_is_left_alone<S: ConnectionStore>(
    input: Option<ServerConnectInfo<'_>>,
    store: &mut S,
    sender: &mut ServerSender,
    options: &ClientOptions,
    now: i64,
    plan: ConnectPlan,
)
    requires
        call_ensures(get_internal_connect::<S>, (input, store, sender, options, now), plan),
        !has_to_connect(old(sender)@, now),
    ensures
        plan is Done,
        final(store).connect_info() == old(store).connect_info(),
        old(sender)@.is_try_connect ==> final(sender)@ == old(sender)@,
        !old(sender)@.is_try_connect ==> final(sender)@ == (SenderView {
            statuses: old(sender)@.statuses.push(SenderStatus::Connected),
            ..old(sender)@
        }),
{
}

/// Without any store the usual port is scanned for, under the same conditions.
pub proof fn lemma_without_a_store_the_usual_port_is_scanned_for(
    sender: &mut ServerSender,
    options: &ClientOptions,
    now: i64,
    plan: ConnectPlan,
)
    requires
        call_ensures(get_internal_connect_without_store, (sender, options, now), plan),
    ensures
        plan is Scan <==> has_to_connect(old(sender)@, now) && options.use_scan_discovery && !old(sender)@.is_scanning,
        !(plan is Dial),
        plan matches ConnectPlan::Scan(port, seconds) ==> {
            &&& port@ == "9000"@
            &&& options.scan_timeout_seconds >= 1 ==> seconds == options.scan_timeout_seconds
            &&& options.scan_timeout_seconds == 0 ==> seconds == 1
            &&& final(sender)@ == (SenderView { is_scanning: true, ..old(sender)@ })
        },
{
}

/// The server on the internet is dialed where the client has to connect and the
/// options name an address. What is reported says so.
pub proof fn lemma_the_outer_server_is_dialed(
    sender: &mut ServerSender,
    options: &ClientOptions,
    now: i64,
    dial: bool,
)
    requires
        call_ensures(get_outer_connect, (sender, options, now), dial),
    ensures
        dial <==> has_to_connect(old(sender)@, now) && options.url@.len() > 0,
        old(sender)@.is_try_connect ==> final(sender)@ == old(sender)@,
        !old(sender)@.is_try_connect ==> final(sender)@ == (SenderView {
            statuses: old(sender)@.statuses.push(
                if dial {
                    SenderStatus::Connecting
                } else if has_to_connect(old(sender)@, now) {
                    SenderStatus::Disconnected
                } else {
                    SenderStatus::Connected
                },
            ),
            ..old(sender)@
        }),
{
}

/// An explicit wish to scan is granted, whether or not the options allow scans,
/// where the client has to connect and no scan is under way.
pub proof fn lemma_an_explicit_scan_is_granted(
    sender: &mut ServerSender,
    options: &ClientOptions,
    now: i64,
    decision: ScanDecision,
)
    requires
        call_ensures(begin_scan_and_connect, (sender, options, now), decision),
    ensures
        decision is Scan <==> has_to_connect(old(sender)@, now) && !old(sender)@.is_scanning,
        decision == ScanDecision::AlreadyConnected <==> !old(sender)@.is_try_connect
            && !has_to_connect(old(sender)@, now),
        decision matches ScanDecision::Scan(seconds) ==> {
            &&& options.scan_timeout_seconds >= 1 ==> seconds == options.scan_timeout_seconds
            &&& options.scan_timeout_seconds == 0 ==> seconds == 1
            &&& final(sender)@ == (SenderView { is_scanning: true, ..old(sender)@ })
        },
        decision == ScanDecision::Refused ==> final(sender)@ == old(sender)@,
        decision == ScanDecision::AlreadyConnected ==> final(sender)@ == (SenderView {
            statuses: old(sender)@.statuses.push(SenderStatus::Connected),
            ..old(sender)@
        }),
{
}

/// A scan needs a local address, and is given back when it ends. A server that
/// it finds is connected to unless an attempt is under way already.
pub proof fn lemma_a_scan_begins_and_ends(
    beginning: &mut ServerSender,
    local_ip: &str,
    go_on: bool,
    ending: &mut ServerSender,
    found: bool,
    guard: Option<TryConnectGuard>,
)
    requires
        call_ensures(begin_scan, (beginning, local_ip), go_on),
        call_ensures(finish_scan, (ending, found), guard),
    ensures
        go_on <==> local_ip@.len() > 0,
        final(beginning)@ == (SenderView {
            is_scanning: go_on && old(beginning)@.is_scanning,
            statuses: old(beginning)@.statuses.push(
                if go_on {
                    SenderStatus::Connecting
                } else {
                    SenderStatus::Disconnected
                },
            ),
            ..old(beginning)@
        }),
        !final(ending)@.is_scanning,
        guard is Some <==> found && !old(ending)@.is_try_connect,
        found ==> final(ending)@ == (SenderView {
            is_scanning: false,
            is_try_connect: true,
            ..old(ending)@
        }),
        !found ==> final(ending)@ == (SenderView {
            is_scanning: false,
            statuses: old(ending)@.statuses.push(SenderStatus::Disconnected),
            ..old(ending)@
        }),
{
}

/// What a client plans by itself it plans like its connection and its options
/// say: on the internet it dials where it has to connect and an address is
/// named, and an explicit wish to scan is granted where it has to connect and
/// no scan is under way.
pub proof fn lemma_a_client_plans_by_its_options(
    dialing: &mut AtomicClient,
    now: i64,
    dial: bool,
    scanning: &mut AtomicClient,
    decision: ScanDecision,
)
    requires
        call_ensures(AtomicClient::get_outer_connect, (dialing, now), dial),
        call_ensures(AtomicClient::scan_and_connect, (scanning, now), decision),
    ensures
        dial <==> has_to_connect(old(dialing).server_sender@, now) && old(
            dialing
        ).options.url@.len() > 0,
        final(dialing).options == old(dialing).options,
        final(dialing).cancelled == old(dialing).cancelled,
        dial ==> final(dialing).server_sender@ == (SenderView {
            statuses: old(dialing).server_sender@.statuses.push(SenderStatus::Connecting),
            ..old(dialing).server_sender@
        }),
        decision is Scan <==> has_to_connect(old(scanning).server_sender@, now) && !old(
            scanning
        ).server_sender@.is_scanning,
        (decision matches ScanDecision::Scan(seconds) ==> (old(
            scanning
        ).options.scan_timeout_seconds >= 1 ==> seconds == old(
            scanning
        ).options.scan_timeout_seconds) && final(scanning).server_sender@ == (SenderView {
            is_scanning: true,
            ..old(scanning).server_sender@
        })),
        final(scanning).options == old(scanning).options,
        final(scanning).cancelled == old(scanning).cancelled,
{
}

/// On the local network a client that has to connect dials the stored address,
/// at the port that is given or else the stored one; one that has not plans
/// nothing.
pub proof fn lemma_a_client_dials_the_stored_address<S: ConnectionStore>(
    client: &mut AtomicClient,
    input: Option<ServerConnectInfo<'_>>,
    store: &mut S,
    now: i64,
    plan: ConnectPlan,
    address: &str,
    port: &str,
    url: String,
)
    requires
        call_ensures(AtomicClient::get_internal_connect::<S>, (client, input, store, now), plan),
        old(store).connect_info() matches Some((stored_ip, stored_port)) && stored_ip == address@
            && stored_ip.len() > 0 && port@ == match input {
            Some(info) => info.port@,
            None => stored_port,
        },
        call_ensures(to_ws_url, (address, port), url),
    ensures
        has_to_connect(old(client).server_sender@, now) ==> (plan matches ConnectPlan::Dial(dialed)
            && dialed@ == url@),
        !has_to_connect(old(client).server_sender@, now) ==> plan is Done,
        final(store).connect_info() == old(store).connect_info(),
        final(client).options == old(client).options,
        final(client).cancelled == old(client).cancelled,
{
}

/// Without an address a client on the local network scans exactly when its
/// options allow it, it has to connect, no scan is under way and a port is
/// known.
pub proof fn lemma_a_client_scans_when_it_may<S: ConnectionStore>(
    client: &mut AtomicClient,
    input: Option<ServerConnectInfo<'_>>,
    store: &mut S,
    now: i64,
    plan: ConnectPlan,
)
    requires
        call_ensures(AtomicClient::get_internal_connect::<S>, (client, input, store, now), plan),
        old(store).connect_info() matches Some((stored_ip, _)) ==> stored_ip.len() == 0,
    ensures
        plan is Scan <==> has_to_connect(old(client).server_sender@, now) && old(
            client
        ).options.use_scan_discovery && !old(client).server_sender@.is_scanning && (input is Some
            || old(store).connect_info() is Some),
        !(plan is Dial),
        (plan matches ConnectPlan::Scan(port, seconds) ==> port@ == match input {
            Some(info) => info.port@,
            None => old(store).connect_info()->Some_0.1,
        }),
{
}

} // verus!
