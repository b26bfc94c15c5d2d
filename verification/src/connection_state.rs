//! How far the attempts to reach each address have come during a scan.

use crate::scan_manager::{ConnectionState, WebSocketStatus};
use dashmap::DashMap;
use vstd::prelude::*;

verus! {

/// What a `DashMap` of attempts holds.
pub uninterp spec fn attempts_in(table: DashMap<String, ConnectionState>) -> Map<
    Seq<char>,
    ConnectionState,
>;

/// No attempts.
pub open spec fn no_attempts() -> Map<Seq<char>, ConnectionState> {
    Map::empty()
}

/// `DashMap::new`: an empty table.
#[verifier::external_body]
pub(crate) fn new_attempts() -> (table: DashMap<String, ConnectionState>)
    ensures
        attempts_in(table) == no_attempts(),
{
    DashMap::new()
}

/// `DashMap::insert`: puts an attempt under an address, in place of the one
/// before.
#[verifier::external_body]
fn put_attempt(table: &mut DashMap<String, ConnectionState>, server_ip: String, state: ConnectionState)
    ensures
        attempts_in(*final(table)) == attempts_in(*old(table)).insert(server_ip@, state),
{
    table.insert(server_ip, state);
}

/// `DashMap::get`: the attempt at this address, if there is one.
#[verifier::external_body]
pub(crate) fn attempt_at(table: &DashMap<String, ConnectionState>, server_ip: &str) -> (state: Option<
    ConnectionState,
>)
    ensures
        state is Some <==> attempts_in(*table).contains_key(server_ip@),
        state is Some ==> state->Some_0 == attempts_in(*table)[server_ip@],
{
    table.get(server_ip).map(|entry| *entry.value())
}

/// `DashMap::iter` over the keys: the addresses of all attempts, each once, in
/// no particular order.
#[verifier::external_body]
fn attempted(table: &DashMap<String, ConnectionState>) -> (names: Vec<String>)
    ensures
        crate::client_sender::names_all(names@, attempts_in(*table).dom()),
{
    table.iter().map(|entry| entry.key().clone()).collect()
}

/// Whether the attempt at this address has led to a connection that is still
/// to be taken.
pub open spec fn connected_at(attempts: Map<Seq<char>, ConnectionState>, server_ip: Seq<char>) -> bool {
    &&& attempts.contains_key(server_ip)
    &&& attempts[server_ip].status == WebSocketStatus::Connected
    &&& attempts[server_ip].ws_stream is Some
}

/// Whether any attempt has led to a connection that is still to be taken.
pub open spec fn any_connected(attempts: Map<Seq<char>, ConnectionState>) -> bool {
    exists|server_ip: Seq<char>| connected_at(attempts, server_ip)
}

/// Keeps track of the attempts of a scan.
pub trait ConnectionManager {
    /// The attempts by address.
    spec fn attempts(&self) -> Map<Seq<char>, ConnectionState>;

    /// Notes that an attempt has begun.
    fn start_connection(&mut self, server_ip: &str)
        ensures
            final(self).attempts() == old(self).attempts().insert(
                server_ip@,
                ConnectionState {
                    status: WebSocketStatus::Connecting,
                    is_connecting: true,
                    ws_stream: None,
                },
            ),
    ;

    /// Notes what came of an attempt, if it was ever begun.
    fn end_connection(&mut self, server_ip: &str, status: (WebSocketStatus, Option<u64>))
        ensures
            final(self).attempts() == if old(self).attempts().contains_key(server_ip@) {
                old(self).attempts().insert(
                    server_ip@,
                    ConnectionState {
                        status: status.0,
                        is_connecting: false,
                        ws_stream: status.1,
                    },
                )
            } else {
                old(self).attempts()
            },
    ;

    /// Takes a connection that an attempt has led to, with its address.
    fn get_connected_ip(&mut self) -> (found: Option<(String, u64)>)
        ensures
            found is Some <==> any_connected(old(self).attempts()),
            found is None ==> final(self).attempts() == old(self).attempts(),
            found matches Some((server_ip, stream)) ==> {
                &&& connected_at(old(self).attempts(), server_ip@)
                &&& old(self).attempts()[server_ip@].ws_stream == Some(stream)
                &&& final(self).attempts() == old(self).attempts().insert(
                    server_ip@,
                    ConnectionState { ws_stream: None, ..old(self).attempts()[server_ip@] },
                )
            },
    ;

    /// Whether any attempt has led to a connection that is still to be taken.
    fn is_connected(&self) -> (r: bool)
        ensures
            r == any_connected(self.attempts()),
    ;
}

/// The address of some connection that is still to be taken, with its stream.
fn find_connected(table: &DashMap<String, ConnectionState>) -> (found: Option<(String, u64)>)
    ensures
        found is Some <==> any_connected(attempts_in(*table)),
        found matches Some((server_ip, stream)) ==> connected_at(attempts_in(*table), server_ip@)
            && attempts_in(*table)[server_ip@].ws_stream == Some(stream),
{
    let names: Vec<String> = attempted(table);
    let mut i: usize = 0;
    while i < names.len()
        invariant
            i <= names@.len(),
            crate::client_sender::names_all(names@, attempts_in(*table).dom()),
            forall|j: int|
                0 <= j < i ==> !connected_at(attempts_in(*table), (#[trigger] names@[j])@),
        decreases names@.len() - i,
    {
        if let Some(state) = attempt_at(table, names[i].as_str()) {
            if let Some(stream) = state.ws_stream {
                if state.status == WebSocketStatus::Connected {
                    assert(connected_at(attempts_in(*table), names@[i as int]@));
                    return Some((names[i].clone(), stream));
                }
            }
        }
        i = i + 1;
    }
    proof {
        assert forall|server_ip: Seq<char>| !connected_at(attempts_in(*table), server_ip) by {
            if connected_at(attempts_in(*table), server_ip) {
                assert(attempts_in(*table).dom().contains(server_ip));
                let j = choose|j: int|
                    0 <= j < names@.len() && (#[trigger] names@[j])@ == server_ip;
                assert(!connected_at(attempts_in(*table), names@[j]@));
            }
        }
    }
    None
}

impl ConnectionManager for DashMap<String, ConnectionState> {
    open spec fn attempts(&self) -> Map<Seq<char>, ConnectionState> {
        attempts_in(*self)
    }

    fn start_connection(&mut self, server_ip: &str) {
        put_attempt(
            self,
            server_ip.to_owned(),
            ConnectionState {
                status: WebSocketStatus::Connecting,
                is_connecting: true,
                ws_stream: None,
            },
        );
    }

    fn end_connection(&mut self, server_ip: &str, status: (WebSocketStatus, Option<u64>)) {
        if attempt_at(self, server_ip).is_some() {
            put_attempt(
                self,
                server_ip.to_owned(),
                ConnectionState { status: status.0, is_connecting: false, ws_stream: status.1 },
            );
        }
    }

    fn get_connected_ip(&mut self) -> (found: Option<(String, u64)>) {
        match find_connected(self) {
            Some((server_ip, stream)) => {
                if let Some(state) = attempt_at(self, server_ip.as_str()) {
                    put_attempt(
                        self,
                        server_ip.clone(),
                        ConnectionState {
                            status: state.status,
                            is_connecting: state.is_connecting,
                            ws_stream: None,
                        },
                    );
                }
                Some((server_ip, stream))
            },
            None => None,
        }
    }

    fn is_connected(&self) -> (r: bool) {
        find_connected(self).is_some()
    }
}

} // verus!
