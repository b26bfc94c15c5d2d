//! Looking for a server on the local network.

use crate::connection_state::{attempt_at, new_attempts, ConnectionManager};
use crate::text;
use dashmap::DashMap;
use vstd::prelude::*;
use vstd::string::*;

verus! {

/// How many seconds lie between one round of a scan and the next.
pub const SCAN_PERIOD_SECONDS: u64 = 2;

/// How many seconds one attempt to reach an address may take.
pub const DIAL_TIMEOUT_SECONDS: u64 = 10;

/// How far an attempt to reach an address has come.
#[derive(Debug, Clone, Copy, PartialEq, Eq, Structural)]
pub enum WebSocketStatus {
    /// Connection attempt in progress
    Connecting,
    /// Successfully connected
    Connected,
    /// Connection was refused: the host exists but the port is closed
    ConnectionRefused,
    /// Connection timed out: no host or network issue
    Timeout,
}

/// An attempt to reach an address.
#[derive(Debug, Clone, Copy, PartialEq, Eq, Structural)]
pub struct ConnectionState {
    /// How far it has come
    pub status: WebSocketStatus,
    /// Whether it is still going on
    pub is_connecting: bool,
    /// The number of the stream, if it has led to one
    pub ws_stream: Option<u64>,
}

/// How dialing an address ended.
#[derive(Debug, Clone, Copy, PartialEq, Eq, Structural)]
pub enum DialOutcome {
    /// With a connection over this stream
    Connected(u64),
    /// The host refused it
    Refused,
    /// Any other error
    Failed,
    /// It took too long
    TimedOut,
}

/// What an attempt comes to when dialing has ended.
pub fn check_connection(outcome: DialOutcome) -> (status: (WebSocketStatus, Option<u64>))
    ensures
        status == match outcome {
            DialOutcome::Connected(stream) => (WebSocketStatus::Connected, Some(stream)),
            DialOutcome::Refused => (WebSocketStatus::ConnectionRefused, None),
            DialOutcome::Failed => (WebSocketStatus::Timeout, None),
            DialOutcome::TimedOut => (WebSocketStatus::Timeout, None),
        },
{
    match outcome {
        DialOutcome::Connected(stream) => (WebSocketStatus::Connected, Some(stream)),
        DialOutcome::Refused => (WebSocketStatus::ConnectionRefused, None),
        DialOutcome::Failed => (WebSocketStatus::Timeout, None),
        DialOutcome::TimedOut => (WebSocketStatus::Timeout, None),
    }
}

/// Where the third part of an address ends.
pub open spec fn third_end(ip: Seq<char>) -> int {
    text::first_place(ip, '.', second_end(ip) + 1)
}

/// Where the second part of an address ends.
pub open spec fn second_end(ip: Seq<char>) -> int {
    text::first_place(ip, '.', text::first_place(ip, '.', 0) + 1)
}

/// Whether an address has at least three parts between dots.
pub open spec fn has_subnet(ip: Seq<char>) -> bool {
    second_end(ip) < ip.len()
}

/// The address in the same subnet whose last part is this number, as the URL
/// that is dialed.
pub open spec fn scan_url(ip: Seq<char>, port: Seq<char>, last: nat) -> Seq<char> {
    "ws://"@ + ip.take(third_end(ip)) + "."@ + text::digits_of(last) + ":"@ + port
}

/// What is known of a scan.
pub struct ScanView {
    pub scan_ips: Seq<Seq<char>>,
    pub attempts: Map<Seq<char>, ConnectionState>,
    pub max_concurrent: usize,
    pub stopped: bool,
}

impl ScanView {
    /// Whether an attempt at this address is going on.
    pub open spec fn connecting(self, server_ip: Seq<char>) -> bool {
        self.attempts.contains_key(server_ip) && self.attempts[server_ip].is_connecting
    }

    /// Whether an attempt at this address may be made: none is going on there,
    /// and no server has been found.
    pub open spec fn allows(self, server_ip: Seq<char>) -> bool {
        &&& !self.stopped
        &&& !self.connecting(server_ip)
        &&& !crate::connection_state::any_connected(self.attempts)
    }
}

/// A scan of the local network.
pub struct ScanManager {
    scan_ips: Vec<String>,
    connection_states: DashMap<String, ConnectionState>,
    max_concurrent: usize,
    stop_flag: bool,
}

/// The views of a list of texts.
pub open spec fn texts(list: Seq<String>) -> Seq<Seq<char>> {
    list.map_values(|s: String| s@)
}

impl View for ScanManager {
    type V = ScanView;

    closed spec fn view(&self) -> ScanView {
        ScanView {
            scan_ips: texts(self.scan_ips@),
            attempts: crate::connection_state::attempts_in(self.connection_states),
            max_concurrent: self.max_concurrent,
            stopped: self.stop_flag,
        }
    }
}

impl ScanManager {
    /// A scan of the subnet of the local address for this port, with at most
    /// fifty attempts at a time.
    pub fn new(local_ip: &str, port: &str) -> (manager: Self)
        requires
            has_subnet(local_ip@),
        ensures
            manager@.scan_ips == Seq::new(254, |i: int| scan_url(local_ip@, port@, (i + 1) as nat)),
            manager@.attempts == crate::connection_state::no_attempts(),
            manager@.max_concurrent == 50,
            !manager@.stopped,
    {
        Self::with_concurrency(local_ip, port, 50)
    }

    /// A scan of the subnet of the local address for this port, with so many
    /// attempts at a time.
    pub fn with_concurrency(local_ip: &str, port: &str, max_concurrent: usize) -> (manager: Self)
        requires
            has_subnet(local_ip@),
        ensures
            manager@.scan_ips == Seq::new(254, |i: int| scan_url(local_ip@, port@, (i + 1) as nat)),
            manager@.attempts == crate::connection_state::no_attempts(),
            manager@.max_concurrent == max_concurrent,
            !manager@.stopped,
    {
        let chars: Vec<char> = text::characters(local_ip);
        let length: usize = chars.len();
        assert(length == local_ip@.len());
        let first: usize = text::find_first(&chars, '.', 0);
        proof {
            text::lemma_first_place_bounds(local_ip@, '.', first + 1);
        }
        let second: usize = text::find_first(&chars, '.', first + 1);
        let third: usize = text::find_first(&chars, '.', second + 1);
        let subnet: &str = local_ip.substring_char(0, third);
        assert(subnet@ =~= local_ip@.take(third_end(local_ip@)));
        let mut scan_ips: Vec<String> = Vec::new();
        let mut last: u8 = 1;
        while last < 255
            invariant
                1 <= last <= 255,
                scan_ips@.len() == last - 1,
                subnet@ == local_ip@.take(third_end(local_ip@)),
                forall|i: int|
                    0 <= i < scan_ips@.len() ==> (#[trigger] scan_ips@[i])@ == scan_url(
                        local_ip@,
                        port@,
                        (i + 1) as nat,
                    ),
            decreases 255 - last,
        {
            let url: String = "ws://".to_owned().concat(subnet).concat(".").concat(
                text::byte_text(last).as_str(),
            ).concat(":").concat(port);
            scan_ips.push(url);
            last = last + 1;
        }
        let manager = ScanManager {
            scan_ips,
            connection_states: new_attempts(),
            max_concurrent,
            stop_flag: false,
        };
        assert(manager@.scan_ips =~= Seq::new(
            254,
            |i: int| scan_url(local_ip@, port@, (i + 1) as nat),
        ));
        manager
    }

    /// How many attempts may be made at a time.
    pub fn max_concurrent(&self) -> (n: usize)
        ensures
            n == self@.max_concurrent,
    {
        self.max_concurrent
    }

    /// Whether an attempt at this address may be made.
    pub fn is_connecting_allowed(&self, server_ip: &str) -> (r: bool)
        ensures
            r == self@.allows(server_ip@),
    {
        if self.stop_flag {
            return false;
        }
        if let Some(state) = attempt_at(&self.connection_states, server_ip) {
            if state.is_connecting {
                return false;
            }
        }
        !self.connection_states.is_connected()
    }

    /// The addresses at which no attempt is going on, in order.
    pub fn get_scannable_ips(&self) -> (list: Vec<String>)
        ensures
            texts(list@) == self@.scan_ips.filter(|ip: Seq<char>| !self@.connecting(ip)),
    {
        let ghost free = |ip: Seq<char>| !self@.connecting(ip);
        let mut list: Vec<String> = Vec::new();
        let mut i: usize = 0;
        proof {
            assert(self@.scan_ips.take(0) =~= Seq::empty());
            assert(texts(list@) =~= Seq::empty());
            reveal_with_fuel(Seq::filter, 1);
            assert(self@.scan_ips.take(0).filter(free) =~= Seq::empty());
        }
        while i < self.scan_ips.len()
            invariant
                i <= self.scan_ips@.len(),
                self@.scan_ips == texts(self.scan_ips@),
                free == (|ip: Seq<char>| !self@.connecting(ip)),
                texts(list@) == self@.scan_ips.take(i as int).filter(free),
            decreases self.scan_ips@.len() - i,
        {
            let ghost before = list@;
            let busy: bool = match attempt_at(&self.connection_states, self.scan_ips[i].as_str()) {
                Some(state) => state.is_connecting,
                None => false,
            };
            proof {
                let shorter = self@.scan_ips.take(i as int);
                let longer = self@.scan_ips.take(i + 1);
                assert(longer =~= shorter.push(self.scan_ips@[i as int]@));
                assert(longer.drop_last() =~= shorter);
                reveal_with_fuel(Seq::filter, 1);
            }
            if !busy {
                list.push(self.scan_ips[i].clone());
                assert(texts(list@) =~= texts(before).push(self.scan_ips@[i as int]@));
            }
            i = i + 1;
        }
        assert(self@.scan_ips.take(i as int) =~= self@.scan_ips);
        list
    }

    /// The addresses at which to begin an attempt now, in order. None once a
    /// server has been found.
    pub fn scan_network(&self) -> (targets: Vec<String>)
        ensures
            texts(targets@) == self@.scan_ips.filter(|ip: Seq<char>| self@.allows(ip)),
    {
        if self.stop_flag || self.connection_states.is_connected() {
            let none: Vec<String> = Vec::new();
            proof {
                let allowed = |ip: Seq<char>| self@.allows(ip);
                lemma_filter_none(self@.scan_ips, allowed);
                assert(texts(none@) =~= Seq::empty());
            }
            return none;
        }
        proof {
            lemma_filter_same(
                self@.scan_ips,
                |ip: Seq<char>| self@.allows(ip),
                |ip: Seq<char>| !self@.connecting(ip),
            );
        }
        self.get_scannable_ips()
    }

    /// Begins an attempt whose turn has come; returns whether to make it. Once
    /// a server has been found none is made.
    pub fn begin_attempt(&mut self, server_ip: &str) -> (go_on: bool)
        ensures
            go_on == !old(self)@.stopped,
            final(self)@ == if old(self)@.stopped {
                old(self)@
            } else {
                ScanView {
                    attempts: old(self)@.attempts.insert(
                        server_ip@,
                        ConnectionState {
                            status: WebSocketStatus::Connecting,
                            is_connecting: true,
                            ws_stream: None,
                        },
                    ),
                    ..old(self)@
                }
            },
    {
        if self.stop_flag {
            return false;
        }
        self.connection_states.start_connection(server_ip);
        true
    }

    /// Ends an attempt. One that has led to a connection stops the scan.
    pub fn end_attempt(&mut self, server_ip: &str, outcome: DialOutcome)
        ensures
            final(self)@ == (ScanView {
                attempts: if old(self)@.attempts.contains_key(server_ip@) {
                    old(self)@.attempts.insert(
                        server_ip@,
                        match outcome {
                            DialOutcome::Connected(stream) => ConnectionState {
                                status: WebSocketStatus::Connected,
                                is_connecting: false,
                                ws_stream: Some(stream),
                            },
                            DialOutcome::Refused => ConnectionState {
                                status: WebSocketStatus::ConnectionRefused,
                                is_connecting: false,
                                ws_stream: None,
                            },
                            _ => ConnectionState {
                                status: WebSocketStatus::Timeout,
                                is_connecting: false,
                                ws_stream: None,
                            },
                        },
                    )
                } else {
                    old(self)@.attempts
                },
                stopped: old(self)@.stopped || outcome is Connected,
                ..old(self)@
            }),
    {
        let status = check_connection(outcome);
        if status.0 == WebSocketStatus::Connected {
            self.stop_flag = true;
        }
        self.connection_states.end_connection(server_ip, status);
    }

    /// Takes the server that was found, if there is one.
    pub fn take_connected(&mut self) -> (found: Option<(String, u64)>)
        ensures
            found is Some <==> crate::connection_state::any_connected(old(self)@.attempts),
            found is None ==> final(self)@ == old(self)@,
            found matches Some((server_ip, stream)) ==> {
                &&& crate::connection_state::connected_at(old(self)@.attempts, server_ip@)
                &&& old(self)@.attempts[server_ip@].ws_stream == Some(stream)
                &&& final(self)@ == (ScanView {
                    attempts: old(self)@.attempts.insert(
                        server_ip@,
                        ConnectionState { ws_stream: None, ..old(self)@.attempts[server_ip@] },
                    ),
                    ..old(self)@
                })
            },
    {
        self.connection_states.get_connected_ip()
    }
}

/// Where nothing is wanted nothing is kept.
proof fn lemma_filter_none(s: Seq<Seq<char>>, wanted: spec_fn(Seq<char>) -> bool)
    requires
        forall|x: Seq<char>| !#[trigger] wanted(x),
    ensures
        s.filter(wanted) == Seq::<Seq<char>>::empty(),
    decreases s.len(),
{
    reveal_with_fuel(Seq::filter, 1);
    if s.len() > 0 {
        lemma_filter_none(s.drop_last(), wanted);
    }
}

/// What is wanted alike is kept alike.
proof fn lemma_filter_same(
    s: Seq<Seq<char>>,
    a: spec_fn(Seq<char>) -> bool,
    b: spec_fn(Seq<char>) -> bool,
)
    requires
        forall|x: Seq<char>| #[trigger] a(x) == b(x),
    ensures
        s.filter(a) == s.filter(b),
    decreases s.len(),
{
    reveal_with_fuel(Seq::filter, 1);
    if s.len() > 0 {
        lemma_filter_same(s.drop_last(), a, b);
    }
}

/// Once a server has been found no further attempt is allowed anywhere.
pub proof fn lemma_found_ends_the_scan(scan: ScanView, server_ip: Seq<char>)
    requires
        scan.stopped || crate::connection_state::any_connected(scan.attempts),
    ensures
        !scan.allows(server_ip),
{
}

/// While an attempt at an address is going on no other is begun there.
pub proof fn lemma_one_attempt_per_address(scan: ScanView, server_ip: Seq<char>)
    ensures
        !(ScanView {
            attempts: scan.attempts.insert(
                server_ip,
                ConnectionState {
                    status: WebSocketStatus::Connecting,
                    is_connecting: true,
                    ws_stream: None,
                },
            ),
            ..scan
        }).allows(server_ip),
{
}

} // verus!
