//! The client: its options, and the rules for when to connect, to scan, to
//! ping and to reconnect.

use crate::common::make_ping_message;
use crate::connection_store::ConnectionStore;
use crate::get_internal_websocket::TryConnectGuard;
use crate::metrics::Metrics;
use crate::schema::ServerConnectInfo;
use crate::server_sender::{to_ws_url, Farewell, SenderStatus, SenderView, ServerSender};
use crate::AtomicWebsocketType;
use tokio::sync::mpsc::Receiver;
use tokio_tungstenite::tungstenite::Message;
use vstd::prelude::*;
use vstd::string::*;

verus! {

/// How a client behaves.
#[derive(Debug)]
pub struct ClientOptions {
    /// Whether to ping the server and to wait for its pong
    pub use_ping: bool,
    /// Address of an external server. Name the scheme, `ws://` or `wss://`: an
    /// address without one is completed from what the build supports.
    pub url: String,
    /// Seconds between health checks
    pub retry_seconds: u64,
    /// Whether to keep the server's address when the connection is lost
    pub use_keep_ip: bool,
    /// Seconds after which an attempt to connect is given up
    pub connect_timeout_seconds: u64,
    /// Where the server is to be found
    pub atomic_websocket_type: AtomicWebsocketType,
    /// Kept for callers that set it; the scheme of the address decides
    pub use_tls: bool,
    /// Places in the channel for received messages
    pub handler_buffer_size: usize,
    /// Places in the channel for status changes
    pub status_buffer_size: usize,
    /// Places in the channel for messages to the server
    pub per_connection_buffer_size: usize,
    /// How many received messages may wait when their channel is full
    pub spillover_buffer_size: usize,
    /// Whether the local network may be scanned when no address is known
    pub use_scan_discovery: bool,
    /// Seconds after which a scan is given up
    pub scan_timeout_seconds: u64,
}

impl ClientOptions {
    /// Whether these are the options of a client that was told nothing.
    pub open spec fn are_defaults(self) -> bool {
        &&& self.use_ping
        &&& self.url@ == Seq::<char>::empty()
        &&& self.retry_seconds == 30
        &&& !self.use_keep_ip
        &&& self.connect_timeout_seconds == 3
        &&& self.atomic_websocket_type == AtomicWebsocketType::Internal
        &&& self.use_tls
        &&& self.handler_buffer_size == 256
        &&& self.status_buffer_size == 8
        &&& self.per_connection_buffer_size == 8
        &&& self.spillover_buffer_size == 1024
        &&& !self.use_scan_discovery
        &&& self.scan_timeout_seconds == 60
    }

    /// Whether channels of the wanted sizes can be made.
    pub open spec fn channels_possible(self) -> bool {
        &&& crate::channel::possible_capacity(self.handler_buffer_size)
        &&& crate::channel::possible_capacity(self.status_buffer_size)
    }
}

impl Default for ClientOptions {
    fn default() -> (options: Self)
        ensures
            options.are_defaults(),
            options.channels_possible(),
    {
        ClientOptions {
            use_ping: true,
            url: String::new(),
            retry_seconds: 30,
            use_keep_ip: false,
            connect_timeout_seconds: 3,
            atomic_websocket_type: AtomicWebsocketType::Internal,
            use_tls: true,
            handler_buffer_size: 256,
            status_buffer_size: 8,
            per_connection_buffer_size: 8,
            spillover_buffer_size: 1024,
            use_scan_discovery: false,
            scan_timeout_seconds: 60,
        }
    }
}

impl Clone for ClientOptions {
    fn clone(&self) -> (copy: Self)
        ensures
            copy == *self,
    {
        ClientOptions {
            use_ping: self.use_ping,
            url: self.url.clone(),
            retry_seconds: self.retry_seconds,
            use_keep_ip: self.use_keep_ip,
            connect_timeout_seconds: self.connect_timeout_seconds,
            atomic_websocket_type: self.atomic_websocket_type,
            use_tls: self.use_tls,
            handler_buffer_size: self.handler_buffer_size,
            status_buffer_size: self.status_buffer_size,
            per_connection_buffer_size: self.per_connection_buffer_size,
            spillover_buffer_size: self.spillover_buffer_size,
            use_scan_discovery: self.use_scan_discovery,
            scan_timeout_seconds: self.scan_timeout_seconds,
        }
    }
}

/// What an attempt to connect comes to.
#[derive(Debug)]
pub enum ConnectPlan {
    /// Nothing is left to do
    Done,
    /// Dial this URL
    Dial(String),
    /// Scan the local network for a server on this port, for so many seconds
    Scan(String, u64),
}

/// How long a scan may take, in seconds.
pub open spec fn scan_limit(options: ClientOptions) -> u64 {
    if options.scan_timeout_seconds == 0 {
        1
    } else {
        options.scan_timeout_seconds
    }
}

/// Whether a plan to scan was made, with the scan claimed; where a scan is
/// under way already nothing happens.
pub open spec fn scan_planned(
    before: SenderView,
    after: SenderView,
    plan: ConnectPlan,
    port: Seq<char>,
    options: ClientOptions,
) -> bool {
    if !options.use_scan_discovery {
        plan is Done && after == before.reporting(SenderStatus::Disconnected)
    } else if before.is_scanning {
        plan is Done && after == before
    } else {
        &&& plan matches ConnectPlan::Scan(scan_port, seconds) && scan_port@ == port && seconds
            == scan_limit(options)
        &&& after == before.scanning()
    }
}

/// Plans a scan for a server on this port, if scanning is allowed and no scan
/// is under way.
fn plan_scan(sender: &mut ServerSender, port: &str, options: &ClientOptions) -> (plan: ConnectPlan)
    ensures
        scan_planned(old(sender)@, final(sender)@, plan, port@, *options),
{
    if !options.use_scan_discovery {
        sender.send_status(SenderStatus::Disconnected);
        return ConnectPlan::Done;
    }
    if !sender.claim_scan() {
        assert(old(sender)@.scanning() == old(sender)@);
        return ConnectPlan::Done;
    }
    let seconds: u64 = if options.scan_timeout_seconds == 0 {
        1
    } else {
        options.scan_timeout_seconds
    };
    ConnectPlan::Scan(port.to_owned(), seconds)
}

/// Whether this is the plan for a connection to a server on the local
/// network, with what it does to the store and to the client. Nothing happens
/// while an attempt is under way or while the connection is good. The address
/// is the stored one; the port is the one given, or else the stored one. A
/// port that is given while nothing is stored is reserved.
pub open spec fn connect_planned<S: ConnectionStore>(
    input: Option<ServerConnectInfo<'_>>,
    store_before: &S,
    store_after: &S,
    before: SenderView,
    after: SenderView,
    options: ClientOptions,
    now: i64,
    plan: ConnectPlan,
) -> bool {
    let stored = store_before.connect_info();
    &&& store_after.client_id() == store_before.client_id()
    &&& store_after.registered() == store_before.registered()
    &&& if before.is_try_connect {
        &&& plan is Done
        &&& after == before
        &&& store_after.connect_info() == stored
    } else if before.valid_at(now) {
        &&& plan is Done
        &&& after == before.reporting(SenderStatus::Connected)
        &&& store_after.connect_info() == stored
    } else {
        &&& store_after.connect_info() == match (input, stored) {
            (Some(info), None) => store_before.info_after_set(Seq::empty(), info.port@),
            _ => stored,
        }
        &&& match (input, stored) {
            (None, None) => plan is Done && after == before.reporting(SenderStatus::Disconnected),
            _ => {
                let server_ip = match stored {
                    Some((server_ip, _)) => server_ip,
                    None => Seq::empty(),
                };
                let port = match input {
                    Some(info) => info.port@,
                    None => stored->Some_0.1,
                };
                if server_ip.len() == 0 {
                    scan_planned(before, after, plan, port, options)
                } else {
                    &&& plan matches ConnectPlan::Dial(url) && url@
                        == crate::server_sender::ws_url(server_ip, port)
                    &&& after == before.reporting(SenderStatus::Connecting)
                }
            },
        }
    }
}

/// Whether this is the plan for a connection to the server on the internet
/// that the options name.
pub open spec fn outer_connect_planned(
    before: SenderView,
    after: SenderView,
    options: ClientOptions,
    now: i64,
    dial: bool,
) -> bool {
    &&& dial == (!before.is_try_connect && !before.valid_at(now) && options.url@.len() > 0)
    &&& after == if before.is_try_connect {
        before
    } else if before.valid_at(now) {
        before.reporting(SenderStatus::Connected)
    } else if options.url@.len() == 0 {
        before.reporting(SenderStatus::Disconnected)
    } else {
        before.reporting(SenderStatus::Connecting)
    }
}

/// Whether this is what an explicit wish to scan comes to.
pub open spec fn scan_decided(
    before: SenderView,
    after: SenderView,
    options: ClientOptions,
    now: i64,
    decision: ScanDecision,
) -> bool {
    if before.is_try_connect {
        decision == ScanDecision::Refused && after == before
    } else if before.valid_at(now) {
        decision == ScanDecision::AlreadyConnected && after == before.reporting(
            SenderStatus::Connected,
        )
    } else if before.is_scanning {
        decision == ScanDecision::Refused && after == before
    } else {
        decision == ScanDecision::Scan(scan_limit(options)) && after == before.scanning()
    }
}

/// Plans a connection to a server on the local network.
pub fn get_internal_connect<S: ConnectionStore>(
    input: Option<ServerConnectInfo<'_>>,
    store: &mut S,
    sender: &mut ServerSender,
    options: &ClientOptions,
    now: i64,
) -> (plan: ConnectPlan)
    ensures
        connect_planned(
            input,
            old(store),
            final(store),
            old(sender)@,
            final(sender)@,
            *options,
            now,
            plan,
        ),
{
    if sender.is_connecting() {
        return ConnectPlan::Done;
    }
    if sender.is_valid_server_ip_at(now) {
        sender.send_status(SenderStatus::Connected);
        return ConnectPlan::Done;
    }
    proof {
        reveal_strlit("");
        assert(""@ =~= Seq::<char>::empty());
    }
    let stored: Option<(String, String)> = store.get_server_connect_info();
    let (server_ip, port): (String, String) = match input {
        Some(info) => match stored {
            Some((server_ip, _)) => (server_ip, info.port.to_owned()),
            None => {
                store.set_server_connect_info("", info.port);
                (String::new(), info.port.to_owned())
            },
        },
        None => match stored {
            Some((server_ip, port)) => (server_ip, port),
            None => {
                sender.send_status(SenderStatus::Disconnected);
                return ConnectPlan::Done;
            },
        },
    };
    if server_ip.as_str().is_empty() {
        return plan_scan(sender, port.as_str(), options);
    }
    let url: String = to_ws_url(server_ip.as_str(), port.as_str());
    sender.send_status(SenderStatus::Connecting);
    ConnectPlan::Dial(url)
}

/// Plans a connection to a server on the local network without any stored
/// address: by a scan for the port 9000, if scanning is allowed.
pub fn get_internal_connect_without_store(
    sender: &mut ServerSender,
    options: &ClientOptions,
    now: i64,
) -> (plan: ConnectPlan)
    ensures
        old(sender)@.is_try_connect ==> plan is Done && final(sender)@ == old(sender)@,
        !old(sender)@.is_try_connect && old(sender)@.valid_at(now) ==> plan is Done
            && final(sender)@ == old(sender)@.reporting(SenderStatus::Connected),
        !old(sender)@.is_try_connect && !old(sender)@.valid_at(now) ==> scan_planned(
            old(sender)@,
            final(sender)@,
            plan,
            "9000"@,
            *options,
        ),
{
    if sender.is_connecting() {
        return ConnectPlan::Done;
    }
    if sender.is_valid_server_ip_at(now) {
        sender.send_status(SenderStatus::Connected);
        return ConnectPlan::Done;
    }
    plan_scan(sender, "9000", options)
}

/// Plans a connection to the server on the internet that the options name;
/// returns whether to dial it.
pub fn get_outer_connect(sender: &mut ServerSender, options: &ClientOptions, now: i64) -> (dial:
    bool)
    ensures
        outer_connect_planned(old(sender)@, final(sender)@, *options, now, dial),
{
    if sender.is_connecting() {
        return false;
    }
    if sender.is_valid_server_ip_at(now) {
        sender.send_status(SenderStatus::Connected);
        return false;
    }
    if options.url.as_str().is_empty() {
        sender.send_status(SenderStatus::Disconnected);
        return false;
    }
    sender.send_status(SenderStatus::Connecting);
    true
}

/// Begins a scan that has been claimed. Without a local address there is
/// nothing to scan, and the claim is given back; returns whether to go on.
pub fn begin_scan(sender: &mut ServerSender, local_ip: &str) -> (go_on: bool)
    ensures
        go_on == (local_ip@.len() > 0),
        final(sender)@ == if local_ip@.len() > 0 {
            old(sender)@.reporting(SenderStatus::Connecting)
        } else {
            old(sender)@.not_scanning().reporting(SenderStatus::Disconnected)
        },
{
    if local_ip.is_empty() {
        sender.release_scan();
        sender.send_status(SenderStatus::Disconnected);
        false
    } else {
        sender.send_status(SenderStatus::Connecting);
        true
    }
}

/// Ends a scan. A server that was found may be connected to if no other
/// attempt is under way: then the claim on that attempt is returned.
pub fn finish_scan(sender: &mut ServerSender, found: bool) -> (guard: Option<TryConnectGuard>)
    ensures
        guard is Some <==> found && !old(sender)@.is_try_connect,
        guard matches Some(claim) ==> claim.armed(),
        final(sender)@ == if !found {
            old(sender)@.not_scanning().reporting(SenderStatus::Disconnected)
        } else {
            old(sender)@.not_scanning().claimed()
        },
{
    sender.release_scan();
    if found {
        let guard = TryConnectGuard::try_acquire(sender);
        assert(sender@ == old(sender)@.not_scanning().claimed());
        guard
    } else {
        sender.send_status(SenderStatus::Disconnected);
        None
    }
}

/// What an explicit wish to scan comes to.
#[derive(Debug, Clone, Copy, PartialEq, Eq, Structural)]
pub enum ScanDecision {
    /// An attempt to connect or a scan is under way already
    Refused,
    /// There is a good connection already
    AlreadyConnected,
    /// Scan for so many seconds
    Scan(u64),
}

/// Decides on an explicit wish to scan, whether or not the options allow
/// scans; a scan that is to be made is claimed.
pub fn begin_scan_and_connect(
    sender: &mut ServerSender,
    options: &ClientOptions,
    now: i64,
) -> (decision: ScanDecision)
    ensures
        scan_decided(old(sender)@, final(sender)@, *options, now, decision),
{
    if sender.is_connecting() {
        return ScanDecision::Refused;
    }
    if sender.is_valid_server_ip_at(now) {
        sender.send_status(SenderStatus::Connected);
        return ScanDecision::AlreadyConnected;
    }
    if !sender.claim_scan() {
        assert(old(sender)@.scanning() == old(sender)@);
        return ScanDecision::Refused;
    }
    let seconds: u64 = if options.scan_timeout_seconds == 0 {
        1
    } else {
        options.scan_timeout_seconds
    };
    ScanDecision::Scan(seconds)
}

/// What a health check leads to.
pub enum HealthAction {
    /// The server is silent for too long: connect again
    Reconnect(Option<Farewell>),
    /// The server has been silent for a while: send this ping
    Ping(Message),
    /// Nothing
    Rest,
}

/// How the server is, by when it was last heard.
#[derive(Debug, Clone, Copy, PartialEq, Eq, Structural)]
pub enum Health {
    /// It was heard recently, or never
    Good,
    /// It was not heard for twice the time between checks
    Quiet,
    /// It was not heard for four times the time between checks
    Dead,
}

/// How the server is at this time.
pub open spec fn health_at(received: i64, retry_seconds: u64, now: i64) -> Health {
    if received > 0 && received + 4 * retry_seconds < now {
        Health::Dead
    } else if received > 0 && received + 2 * retry_seconds < now {
        Health::Quiet
    } else {
        Health::Good
    }
}

/// How the server is at this time.
pub fn check_health(received: i64, retry_seconds: u64, now: i64) -> (health: Health)
    ensures
        health == health_at(received, retry_seconds, now),
{
    if received > 0 && received as i128 + 4 * (retry_seconds as i128) < now as i128 {
        Health::Dead
    } else if received > 0 && received as i128 + 2 * (retry_seconds as i128) < now as i128 {
        Health::Quiet
    } else {
        Health::Good
    }
}

/// The rhythm of the health checks: one every `retry_seconds` while all is
/// well, and after each attempt to reconnect twice as long as before, up to
/// eight times that.
#[derive(Debug)]
pub struct PingLoop {
    retry_seconds: u64,
    max_retry_seconds: u64,
    current_retry_seconds: u64,
}

/// Eight times the time between checks, or the longest time there is.
pub open spec fn longest_wait(retry_seconds: u64) -> u64 {
    if 8 * retry_seconds <= u64::MAX {
        (8 * retry_seconds) as u64
    } else {
        u64::MAX
    }
}

/// The wait after an attempt to reconnect.
pub open spec fn stretched(current: u64, retry_seconds: u64) -> u64 {
    if 2 * current <= longest_wait(retry_seconds) {
        (2 * current) as u64
    } else {
        longest_wait(retry_seconds)
    }
}

impl PingLoop {
    /// The time between checks while all is well, at least a second.
    pub closed spec fn base(&self) -> u64 {
        self.retry_seconds
    }

    /// The time until the next check.
    pub closed spec fn wait(&self) -> u64 {
        self.current_retry_seconds
    }

    /// The next check comes no sooner than the usual time and no later than
    /// eight times that.
    pub closed spec fn wf(&self) -> bool {
        &&& self.retry_seconds >= 1
        &&& self.max_retry_seconds == longest_wait(self.retry_seconds)
        &&& self.retry_seconds <= self.current_retry_seconds <= self.max_retry_seconds
    }

    /// The rhythm of a client with these options.
    pub fn new(options: &ClientOptions) -> (ping_loop: Self)
        ensures
            ping_loop.wf(),
            ping_loop.base() == if options.retry_seconds == 0 {
                1
            } else {
                options.retry_seconds
            },
            ping_loop.wait() == ping_loop.base(),
    {
        let retry_seconds: u64 = if options.retry_seconds == 0 {
            1
        } else {
            options.retry_seconds
        };
        let max_retry_seconds: u64 = if retry_seconds <= u64::MAX / 8 {
            retry_seconds * 8
        } else {
            u64::MAX
        };
        PingLoop { retry_seconds, max_retry_seconds, current_retry_seconds: retry_seconds }
    }

    /// The seconds until the next check.
    pub fn interval(&self) -> (seconds: u64)
        requires
            self.wf(),
        ensures
            seconds == self.wait(),
            self.base() <= seconds <= longest_wait(self.base()),
    {
        self.current_retry_seconds
    }

    /// Waits longer before the next check.
    fn stretch(&mut self)
        requires
            old(self).wf(),
        ensures
            final(self).wf(),
            final(self).base() == old(self).base(),
            final(self).wait() == stretched(old(self).wait(), old(self).base()),
    {
        self.current_retry_seconds = if self.current_retry_seconds <= self.max_retry_seconds / 2 {
            self.current_retry_seconds * 2
        } else {
            self.max_retry_seconds
        };
    }

    /// Goes back to the usual time.
    fn relax(&mut self)
        requires
            old(self).wf(),
        ensures
            final(self).wf(),
            final(self).base() == old(self).base(),
            final(self).wait() == old(self).base(),
    {
        self.current_retry_seconds = self.retry_seconds;
    }

    /// One check of a connection on the local network.
    pub fn internal_ping_loop_cheker<S: ConnectionStore>(
        &mut self,
        sender: &mut ServerSender,
        store: &mut S,
        options: &ClientOptions,
        now: i64,
    ) -> (action: HealthAction)
        requires
            old(self).wf(),
            old(sender)@.wf(),
            crate::wire::text_fits(old(store).client_id()),
        ensures
            final(self).wf(),
            final(self).base() == old(self).base(),
            final(sender)@.wf(),
            final(store).client_id() == old(store).client_id(),
            final(store).registered() == old(store).registered(),
            match health_at(old(sender)@.received, old(self).base(), now) {
                Health::Dead => {
                    let reported = old(sender)@.reporting(SenderStatus::Disconnected);
                    let cleared = if options.use_keep_ip {
                        reported
                    } else {
                        reported.without_ip()
                    };
                    &&& action matches HealthAction::Reconnect(farewell) && if options.use_keep_ip
                        || old(sender)@.server_ip.len() == 0 {
                        farewell is None
                    } else {
                        old(sender)@.owes(farewell)
                    }
                    &&& final(sender)@ == cleared.reporting(SenderStatus::Reconnecting).reconnecting()
                    &&& final(store).connect_info() == if options.use_keep_ip {
                        old(store).connect_info()
                    } else {
                        old(store).info_after_clear()
                    }
                    &&& final(self).wait() == stretched(old(self).wait(), old(self).base())
                },
                Health::Quiet => {
                    &&& if options.use_ping {
                        action matches HealthAction::Ping(ping) && crate::common::carries(
                            ping,
                            crate::common::ping_bytes(old(store).client_id()),
                        )
                    } else {
                        action is Rest
                    }
                    &&& final(sender)@ == old(sender)@
                    &&& final(store).connect_info() == old(store).connect_info()
                    &&& final(self).wait() == old(self).wait()
                },
                Health::Good => {
                    &&& action is Rest
                    &&& final(sender)@ == old(sender)@
                    &&& final(store).connect_info() == old(store).connect_info()
                    &&& final(self).wait() == old(self).base()
                },
            },
    {
        match check_health(sender.received_times(), self.retry_seconds, now) {
            Health::Dead => {
                sender.send_status(SenderStatus::Disconnected);
                let farewell: Option<Farewell> = if options.use_keep_ip {
                    None
                } else {
                    sender.remove_ip_if_valid_server_ip(store, "")
                };
                sender.send_status(SenderStatus::Reconnecting);
                sender.count_reconnection();
                self.stretch();
                HealthAction::Reconnect(farewell)
            },
            Health::Quiet => {
                if options.use_ping {
                    let id: String = store.get_client_id();
                    HealthAction::Ping(make_ping_message(id.as_str()))
                } else {
                    HealthAction::Rest
                }
            },
            Health::Good => {
                self.relax();
                HealthAction::Rest
            },
        }
    }

    /// One check of a connection to a server on the internet. The stored
    /// address is left alone.
    pub fn outer_ping_loop_cheker<S: ConnectionStore>(
        &mut self,
        sender: &mut ServerSender,
        store: &S,
        options: &ClientOptions,
        now: i64,
    ) -> (action: HealthAction)
        requires
            old(self).wf(),
            old(sender)@.wf(),
            crate::wire::text_fits(store.client_id()),
        ensures
            final(self).wf(),
            final(self).base() == old(self).base(),
            final(sender)@.wf(),
            match health_at(old(sender)@.received, old(self).base(), now) {
                Health::Dead => {
                    let reported = old(sender)@.reporting(SenderStatus::Disconnected);
                    let cleared = if options.use_keep_ip {
                        reported
                    } else {
                        reported.without_ip()
                    };
                    &&& action matches HealthAction::Reconnect(farewell) && if options.use_keep_ip
                        || old(sender)@.server_ip.len() == 0 {
                        farewell is None
                    } else {
                        old(sender)@.owes(farewell)
                    }
                    &&& final(sender)@ == cleared.reporting(SenderStatus::Reconnecting).reconnecting()
                    &&& final(self).wait() == stretched(old(self).wait(), old(self).base())
                },
                Health::Quiet => {
                    &&& if options.use_ping {
                        action matches HealthAction::Ping(ping) && crate::common::carries(
                            ping,
                            crate::common::ping_bytes(store.client_id()),
                        )
                    } else {
                        action is Rest
                    }
                    &&& final(sender)@ == old(sender)@
                    &&& final(self).wait() == old(self).wait()
                },
                Health::Good => {
                    &&& action is Rest
                    &&& final(sender)@ == old(sender)@
                    &&& final(self).wait() == old(self).base()
                },
            },
    {
        match check_health(sender.received_times(), self.retry_seconds, now) {
            Health::Dead => {
                sender.send_status(SenderStatus::Disconnected);
                let farewell: Option<Farewell> = if options.use_keep_ip {
                    None
                } else {
                    sender.remove_ip()
                };
                sender.send_status(SenderStatus::Reconnecting);
                sender.count_reconnection();
                self.stretch();
                HealthAction::Reconnect(farewell)
            },
            Health::Quiet => {
                if options.use_ping {
                    let id: String = store.get_client_id();
                    HealthAction::Ping(make_ping_message(id.as_str()))
                } else {
                    HealthAction::Rest
                }
            },
            Health::Good => {
                self.relax();
                HealthAction::Rest
            },
        }
    }
}

/// A client: its connection and its options.
pub struct AtomicClient {
    pub server_sender: ServerSender,
    pub options: ClientOptions,
    /// Whether the client has been told to stop
    pub cancelled: bool,
}

impl AtomicClient {
    /// A client over this connection. It may reconnect by itself.
    pub fn over(server_sender: ServerSender, options: ClientOptions) -> (client: Self)
        ensures
            client.server_sender@ == (SenderView { registered: true, ..server_sender@ }),
            client.options == options,
            !client.cancelled,
    {
        let mut sender: ServerSender = server_sender;
        sender.regist();
        AtomicClient { server_sender: sender, options, cancelled: false }
    }

    /// Registers an identifier for this client if there is none yet.
    pub fn regist_id<S: ConnectionStore>(&self, store: &mut S)
        ensures
            final(store).registered(),
            final(store).connect_info() == old(store).connect_info(),
            old(store).registered() ==> final(store).client_id() == old(store).client_id(),
    {
        store.ensure_client_id();
    }

    /// Stops the client: its health checks end and its connection is dropped.
    pub fn disconnect(&mut self) -> (farewell: Option<Farewell>)
        requires
            old(self).server_sender@.wf(),
        ensures
            final(self).cancelled,
            final(self).options == old(self).options,
            final(self).server_sender@.wf(),
            final(self).server_sender@ == old(self).server_sender@.without_ip(),
            old(self).server_sender@.server_ip.len() > 0 ==> old(self).server_sender@.owes(
                farewell,
            ),
            old(self).server_sender@.server_ip.len() == 0 ==> farewell is None,
    {
        self.cancelled = true;
        self.server_sender.remove_ip()
    }

    /// Plans a connection to a server on the local network.
    pub fn get_internal_connect<S: ConnectionStore>(
        &mut self,
        input: Option<ServerConnectInfo<'_>>,
        store: &mut S,
        now: i64,
    ) -> (plan: ConnectPlan)
        ensures
            final(self).options == old(self).options,
            final(self).cancelled == old(self).cancelled,
            connect_planned(
                input,
                old(store),
                final(store),
                old(self).server_sender@,
                final(self).server_sender@,
                old(self).options,
                now,
                plan,
            ),
    {
        get_internal_connect(input, store, &mut self.server_sender, &self.options, now)
    }

    /// Plans a connection to the server on the internet; returns whether to
    /// dial it.
    pub fn get_outer_connect(&mut self, now: i64) -> (dial: bool)
        ensures
            final(self).options == old(self).options,
            final(self).cancelled == old(self).cancelled,
            outer_connect_planned(
                old(self).server_sender@,
                final(self).server_sender@,
                old(self).options,
                now,
                dial,
            ),
    {
        get_outer_connect(&mut self.server_sender, &self.options, now)
    }

    /// Decides on an explicit wish to scan.
    pub fn scan_and_connect(&mut self, now: i64) -> (decision: ScanDecision)
        ensures
            final(self).options == old(self).options,
            final(self).cancelled == old(self).cancelled,
            scan_decided(
                old(self).server_sender@,
                final(self).server_sender@,
                old(self).options,
                now,
                decision,
            ),
    {
        begin_scan_and_connect(&mut self.server_sender, &self.options, now)
    }

    /// Hands out the receiver of status reports, once.
    pub fn get_status_receiver(&mut self) -> (receiver: Option<Receiver<SenderStatus>>)
        requires
            old(self).server_sender@.wf(),
        ensures
            final(self).server_sender@.wf(),
            receiver == old(self).server_sender@.status_receiver,
            receiver matches Some(rx) ==> rx == old(self).server_sender@.status_far_end,
            final(self).server_sender@ == (SenderView {
                status_receiver: None,
                ..old(self).server_sender@
            }),
            final(self).options == old(self).options,
            final(self).cancelled == old(self).cancelled,
    {
        self.server_sender.get_status_receiver()
    }

    /// Hands out the receiver of messages from the server, once.
    pub fn get_handle_message_receiver(&mut self) -> (receiver: Option<Receiver<Vec<u8>>>)
        requires
            old(self).server_sender@.wf(),
        ensures
            final(self).server_sender@.wf(),
            receiver == old(self).server_sender@.handler.receiver(),
            receiver matches Some(rx) ==> rx == old(self).server_sender@.handler.far_end(),
            crate::channel::receiver_taken(
                old(self).server_sender@.handler,
                final(self).server_sender@.handler,
            ),
            final(self).server_sender@ == (SenderView {
                handler: final(self).server_sender@.handler,
                ..old(self).server_sender@
            }),
            final(self).options == old(self).options,
            final(self).cancelled == old(self).cancelled,
    {
        self.server_sender.get_handle_message_receiver()
    }

    /// What this client has counted.
    pub fn metrics(&self) -> (metrics: &Metrics)
        ensures
            *metrics == self.server_sender@.metrics,
    {
        self.server_sender.counters()
    }
}

/// While a scan is under way no other is planned, and nothing is reported.
pub proof fn lemma_one_scan_at_a_time(
    before: SenderView,
    after: SenderView,
    plan: ConnectPlan,
    port: Seq<char>,
    options: ClientOptions,
    second_plan: ConnectPlan,
    after_second: SenderView,
    second_port: Seq<char>,
)
    requires
        scan_planned(before, after, plan, port, options),
        plan is Scan,
        scan_planned(after, after_second, second_plan, second_port, options),
    ensures
        second_plan is Done,
        after_second == after,
        after_second.is_scanning,
{
}

/// Where scans are not allowed none is planned, and the client reports that it
/// is disconnected.
pub proof fn lemma_no_scan_unless_allowed(
    before: SenderView,
    after: SenderView,
    plan: ConnectPlan,
    port: Seq<char>,
    options: ClientOptions,
)
    requires
        scan_planned(before, after, plan, port, options),
        !options.use_scan_discovery,
    ensures
        plan is Done,
        after.statuses == before.statuses.push(SenderStatus::Disconnected),
        after.is_scanning == before.is_scanning,
{
}

/// A server that was never heard is never taken for dead, whatever the time.
pub proof fn lemma_never_heard_is_never_dead(retry_seconds: u64, now: i64)
    ensures
        health_at(0, retry_seconds, now) == Health::Good,
{
}

/// A server whose address counts as good is neither quiet nor dead.
pub proof fn lemma_valid_is_healthy(sender: SenderView, now: i64)
    requires
        sender.valid_at(now),
    ensures
        health_at(
            sender.received,
            if sender.options.retry_seconds == 0 {
                1
            } else {
                sender.options.retry_seconds
            },
            now,
        ) == Health::Good,
{
}

/// A server that is taken for quiet or dead does not count as good, so that
/// the attempt to reconnect is made.
pub proof fn lemma_silent_is_not_good(sender: SenderView, now: i64)
    requires
        health_at(
            sender.received,
            if sender.options.retry_seconds == 0 {
                1
            } else {
                sender.options.retry_seconds
            },
            now,
        ) != Health::Good,
    ensures
        !sender.valid_at(now),
{
}

/// A server whose address is stored is dialed there, without a scan, whether
/// or not scans are allowed.
pub proof fn lemma_known_server_is_dialed<S: ConnectionStore>(
    input: Option<ServerConnectInfo<'_>>,
    store_before: &S,
    store_after: &S,
    before: SenderView,
    after: SenderView,
    options: ClientOptions,
    now: i64,
    plan: ConnectPlan,
    server_ip: Seq<char>,
    port: Seq<char>,
)
    requires
        connect_planned(input, store_before, store_after, before, after, options, now, plan),
        !before.is_try_connect,
        !before.valid_at(now),
        store_before.connect_info() == Some((server_ip, port)),
        server_ip.len() > 0,
    ensures
        plan matches ConnectPlan::Dial(url) && url@ == crate::server_sender::ws_url(
            server_ip,
            match input {
                Some(info) => info.port@,
                None => port,
            },
        ),
        after.is_scanning == before.is_scanning,
        store_after.connect_info() == store_before.connect_info(),
{
}

/// A server that goes on being silent gets worse, never better.
pub proof fn lemma_silence_only_worsens(received: i64, retry_seconds: u64, now: i64, later: i64)
    requires
        now <= later,
    ensures
        health_at(received, retry_seconds, now) == Health::Dead ==> health_at(
            received,
            retry_seconds,
            later,
        ) == Health::Dead,
        health_at(received, retry_seconds, now) == Health::Quiet ==> health_at(
            received,
            retry_seconds,
            later,
        ) != Health::Good,
{
}

/// Three attempts to reconnect in a row bring the time between checks to its
/// limit of eight times the usual, where it stays.
pub proof fn lemma_waits_reach_the_limit(retry_seconds: u64)
    requires
        retry_seconds >= 1,
    ensures
        stretched(
            stretched(stretched(retry_seconds, retry_seconds), retry_seconds),
            retry_seconds,
        ) == longest_wait(retry_seconds),
        stretched(longest_wait(retry_seconds), retry_seconds) == longest_wait(retry_seconds),
{
}

} // verus!
