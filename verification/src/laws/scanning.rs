//! Scans of the local network.

use crate::connection_state::ConnectionManager;
use crate::scan_manager::{
    check_connection, ConnectionState, DialOutcome, ScanManager, ScanView, WebSocketStatus,
};
use crate::text;
use crate::text::byte_text;
use dashmap::DashMap;
use vstd::prelude::*;
use vstd::string::*;

verus! {

/// A scan covers the subnet of the local address: its first three parts, and
/// each number from 1 to 254 in the place of the last, in order.
pub proof fn lemma_a_scan_covers_the_subnet_of_the_local_address(
    local_ip: &str,
    port: &str,
    max_concurrent: usize,
    manager: ScanManager,
    a: Seq<char>,
    b: Seq<char>,
    c: Seq<char>,
    rest: Seq<char>,
    n: u8,
    number: String,
)
    requires
        call_ensures(ScanManager::with_concurrency, (local_ip, port, max_concurrent), manager),
        local_ip@ == a + "."@ + b + "."@ + c + rest,
        forall|i: int| 0 <= i < a.len() ==> #[trigger] a[i] != '.',
        forall|i: int| 0 <= i < b.len() ==> #[trigger] b[i] != '.',
        forall|i: int| 0 <= i < c.len() ==> #[trigger] c[i] != '.',
        rest.len() > 0 ==> rest[0] == '.',
        1 <= n <= 254,
        call_ensures(byte_text, (n,), number),
    ensures
        crate::scan_manager::has_subnet(local_ip@),
        manager@.scan_ips.len() == 254,
        manager@.scan_ips[n - 1] == "ws://"@ + a + "."@ + b + "."@ + c + "."@ + number@ + ":"@
            + port@,
        manager@.max_concurrent == max_concurrent,
        !manager@.stopped,
        manager@.attempts.dom() == Set::<Seq<char>>::empty(),
        rest == "."@ + number@ ==> manager@.scan_ips.contains(
            "ws://"@ + local_ip@ + ":"@ + port@,
        ),
{
    reveal_strlit(".");
    let s = local_ip@;
    let first = a.len() as int;
    let second = first + 1 + b.len();
    let third = second + 1 + c.len();
    assert forall|i: int| 0 <= i < first implies #[trigger] s[i] != '.' by {
        assert(s[i] == a[i]);
    }
    text::lemma_first_place_is(s, '.', 0, first);
    assert forall|i: int| first + 1 <= i < second implies #[trigger] s[i] != '.' by {
        assert(s[i] == b[i - first - 1]);
    }
    text::lemma_first_place_is(s, '.', first + 1, second);
    assert forall|i: int| second + 1 <= i < third implies #[trigger] s[i] != '.' by {
        assert(s[i] == c[i - second - 1]);
    }
    assert(third < s.len() ==> s[third] == rest[0]);
    text::lemma_first_place_is(s, '.', second + 1, third);
    let subnet = a + "."@ + b + "."@ + c;
    assert(s.take(third) =~= subnet);
    let url = "ws://"@ + a + "."@ + b + "."@ + c + "."@ + number@ + ":"@ + port@;
    assert(manager@.scan_ips[n - 1] =~= url);
    if rest == "."@ + number@ {
        assert("ws://"@ + s + ":"@ + port@ =~= url);
    }
}

/// Fifty attempts are made at a time unless another number is asked for, and
/// the same addresses are scanned.
pub proof fn lemma_the_usual_scan_makes_fifty_attempts_at_a_time(
    local_ip: &str,
    port: &str,
    usual: ScanManager,
    other: ScanManager,
)
    requires
        call_ensures(ScanManager::new, (local_ip, port), usual),
        call_ensures(ScanManager::with_concurrency, (local_ip, port, 50usize), other),
    ensures
        usual@ == other@,
{
}

/// Whether an attempt at this address is still going on.
pub open spec fn going_on(scan: ScanView, server_ip: Seq<char>) -> bool {
    scan.attempts.contains_key(server_ip) && scan.attempts[server_ip].is_connecting
}

/// Whether this address has led to a connection that is still to be taken.
pub open spec fn found_at(scan: ScanView, server_ip: Seq<char>) -> bool {
    &&& scan.attempts.contains_key(server_ip)
    &&& scan.attempts[server_ip].status == WebSocketStatus::Connected
    &&& scan.attempts[server_ip].ws_stream is Some
}

/// An attempt may be made at any address where none is going on, until a server
/// has been found.
pub proof fn lemma_attempts_are_allowed_until_a_server_is_found(
    manager: &ScanManager,
    server_ip: &str,
    allowed: bool,
)
    requires
        call_ensures(ScanManager::is_connecting_allowed, (manager, server_ip), allowed),
    ensures
        allowed <==> !manager@.stopped && !going_on(manager@, server_ip@) && (forall|other:
            Seq<char>| !#[trigger] found_at(manager@, other)),
{
    lemma_found_at_is_connected(manager@);
}

/// What counts as found.
proof fn lemma_found_at_is_connected(scan: ScanView)
    ensures
        crate::connection_state::any_connected(scan.attempts) <==> exists|other: Seq<char>|
            #[trigger] found_at(scan, other),
{
    if exists|other: Seq<char>| #[trigger] found_at(scan, other) {
        let other = choose|other: Seq<char>| #[trigger] found_at(scan, other);
        assert(crate::connection_state::connected_at(scan.attempts, other));
    }
    if crate::connection_state::any_connected(scan.attempts) {
        let other = choose|other: Seq<char>|
            crate::connection_state::connected_at(scan.attempts, other);
        assert(found_at(scan, other));
    }
}

/// A round of a scan goes to every address where no attempt is going on, and to
/// no other; once a server has been found it goes nowhere.
pub proof fn lemma_a_round_goes_wherever_no_attempt_is_going_on(
    manager: &ScanManager,
    targets: Vec<String>,
    server_ip: Seq<char>,
)
    requires
        call_ensures(ScanManager::scan_network, (manager,), targets),
    ensures
        manager@.stopped ==> targets@.len() == 0,
        (exists|other: Seq<char>| #[trigger] found_at(manager@, other)) ==> targets@.len() == 0,
        !manager@.stopped && (forall|other: Seq<char>| !#[trigger] found_at(manager@, other)) ==> {
            (exists|i: int| 0 <= i < targets@.len() && (#[trigger] targets@[i])@ == server_ip)
                <==> manager@.scan_ips.contains(server_ip) && !going_on(manager@, server_ip)
        },
        forall|i: int|
            0 <= i < targets@.len() ==> manager@.scan_ips.contains((#[trigger] targets@[i])@)
                && !going_on(manager@, targets@[i]@),
{
    lemma_found_at_is_connected(manager@);
    let wanted = |ip: Seq<char>| manager@.allows(ip);
    let chosen = manager@.scan_ips.filter(wanted);
    let listed = crate::scan_manager::texts(targets@);
    assert(listed == chosen);
    assert(listed.len() == targets@.len());
    lemma_filtered(manager@.scan_ips, wanted, server_ip);
    if targets@.len() > 0 {
        assert(listed[0] == targets@[0]@);
        lemma_filtered(manager@.scan_ips, wanted, targets@[0]@);
        assert(chosen.contains(targets@[0]@));
    }
    assert forall|i: int| 0 <= i < targets@.len() implies manager@.scan_ips.contains(
        (#[trigger] targets@[i])@,
    ) && !going_on(manager@, targets@[i]@) by {
        assert(listed[i] == targets@[i]@);
        lemma_filtered(manager@.scan_ips, wanted, targets@[i]@);
        assert(chosen.contains(targets@[i]@));
    }
    if chosen.contains(server_ip) {
        let i = choose|i: int| 0 <= i < chosen.len() && chosen[i] == server_ip;
        assert(targets@[i]@ == listed[i]);
    }
    if exists|i: int| 0 <= i < targets@.len() && (#[trigger] targets@[i])@ == server_ip {
        let i = choose|i: int| 0 <= i < targets@.len() && (#[trigger] targets@[i])@ == server_ip;
        assert(listed[i] == server_ip);
        assert(chosen.contains(server_ip));
    }
}

/// A filtered list holds what the list holds and the filter wants.
proof fn lemma_filtered(s: Seq<Seq<char>>, wanted: spec_fn(Seq<char>) -> bool, x: Seq<char>)
    ensures
        s.filter(wanted).contains(x) <==> s.contains(x) && wanted(x),
    decreases s.len(),
{
    reveal_with_fuel(Seq::filter, 1);
    if s.len() > 0 {
        let shorter = s.drop_last();
        lemma_filtered(shorter, wanted, x);
        assert(s =~= shorter.push(s.last()));
        if shorter.contains(x) {
            let i = choose|i: int| 0 <= i < shorter.len() && shorter[i] == x;
            assert(s[i] == x);
        }
        if s.contains(x) && x != s.last() {
            let i = choose|i: int| 0 <= i < s.len() && s[i] == x;
            assert(shorter[i] == x);
        }
        if x == s.last() {
            assert(s[s.len() - 1] == x);
        }
        let kept = shorter.filter(wanted);
        if wanted(s.last()) {
            assert(s.filter(wanted) == kept.push(s.last()));
            assert(kept.push(s.last())[kept.len() as int] == s.last());
            if kept.contains(x) {
                let i = choose|i: int| 0 <= i < kept.len() && kept[i] == x;
                assert(kept.push(s.last())[i] == x);
            }
            if kept.push(s.last()).contains(x) && x != s.last() {
                let i = choose|i: int|
                    0 <= i < kept.push(s.last()).len() && kept.push(s.last())[i] == x;
                assert(kept[i] == x);
            }
        }
    }
}

/// An attempt that was begun is going on until it ends, and one that ends with
/// a connection can be taken and ends the scan.
pub proof fn lemma_an_attempt_that_connects_ends_the_scan(
    manager: &mut ScanManager,
    server_ip: &str,
    stream: u64,
    done: (),
)
    requires
        call_ensures(
            ScanManager::end_attempt,
            (manager, server_ip, crate::scan_manager::DialOutcome::Connected(stream)),
            done,
        ),
        old(manager)@.attempts.contains_key(server_ip@),
    ensures
        final(manager)@.stopped,
        found_at(final(manager)@, server_ip@),
        final(manager)@.attempts[server_ip@].ws_stream == Some(stream),
        !going_on(final(manager)@, server_ip@),
        final(manager)@.scan_ips == old(manager)@.scan_ips,
{
}

/// What was found is handed out with the stream that it has led to.
pub proof fn lemma_what_was_found_is_handed_out(
    manager: &mut ScanManager,
    found: Option<(String, u64)>,
)
    requires
        call_ensures(ScanManager::take_connected, (manager,), found),
    ensures
        found is Some <==> exists|other: Seq<char>| #[trigger] found_at(old(manager)@, other),
        found matches Some((server_ip, stream)) ==> {
            &&& found_at(old(manager)@, server_ip@)
            &&& old(manager)@.attempts[server_ip@].ws_stream == Some(stream)
            &&& !found_at(final(manager)@, server_ip@)
        },
{
    lemma_found_at_is_connected(old(manager)@);
    if let Some((server_ip, _)) = found {
        assert(crate::connection_state::connected_at(old(manager)@.attempts, server_ip@));
    }
}

/// A filtered list keeps the order of the list.
proof fn lemma_filtered_in_order(
    s: Seq<Seq<char>>,
    wanted: spec_fn(Seq<char>) -> bool,
    i: int,
    j: int,
    a: int,
    b: int,
)
    requires
        s.no_duplicates(),
        0 <= i < j < s.filter(wanted).len(),
        0 <= a < s.len(),
        0 <= b < s.len(),
        s[a] == s.filter(wanted)[i],
        s[b] == s.filter(wanted)[j],
    ensures
        a < b,
    decreases s.len(),
{
    reveal_with_fuel(Seq::filter, 1);
    let shorter = s.drop_last();
    let kept = shorter.filter(wanted);
    lemma_filtered(shorter, wanted, s.filter(wanted)[i]);
    if wanted(s.last()) && j == kept.len() {
        assert(kept[i] == s.filter(wanted)[i]);
        assert(kept.contains(s.filter(wanted)[i]));
        let c = choose|c: int| 0 <= c < shorter.len() && shorter[c] == s.filter(wanted)[i];
        assert(s[c] == s[a]);
        assert(s[b] == s[s.len() - 1]);
    } else {
        lemma_filtered(shorter, wanted, s.filter(wanted)[j]);
        assert(kept[i] == s.filter(wanted)[i]);
        assert(kept[j] == s.filter(wanted)[j]);
        assert(kept.contains(kept[i]));
        assert(kept.contains(kept[j]));
        let c = choose|c: int| 0 <= c < shorter.len() && shorter[c] == kept[i];
        let d = choose|d: int| 0 <= d < shorter.len() && shorter[d] == kept[j];
        assert(s[c] == s[a]);
        assert(s[d] == s[b]);
        lemma_filtered_in_order(shorter, wanted, i, j, a, b);
    }
}

/// A round of a scan goes to its addresses in the order of the scan, to each
/// once.
pub proof fn lemma_a_round_goes_in_order(
    manager: &ScanManager,
    targets: Vec<String>,
    i: int,
    j: int,
    a: int,
    b: int,
)
    requires
        call_ensures(ScanManager::scan_network, (manager,), targets),
        manager@.scan_ips.no_duplicates(),
        0 <= i < j < targets@.len(),
        0 <= a < manager@.scan_ips.len(),
        0 <= b < manager@.scan_ips.len(),
        manager@.scan_ips[a] == targets@[i]@,
        manager@.scan_ips[b] == targets@[j]@,
    ensures
        a < b,
{
    let wanted = |ip: Seq<char>| manager@.allows(ip);
    let listed = crate::scan_manager::texts(targets@);
    assert(listed == manager@.scan_ips.filter(wanted));
    assert(listed[i] == targets@[i]@);
    assert(listed[j] == targets@[j]@);
    lemma_filtered_in_order(manager@.scan_ips, wanted, i, j, a, b);
}

/// The addresses that can be scanned are all those where no attempt is going
/// on, and no others.
pub proof fn lemma_what_can_be_scanned(
    manager: &ScanManager,
    list: Vec<String>,
    server_ip: Seq<char>,
)
    requires
        call_ensures(ScanManager::get_scannable_ips, (manager,), list),
    ensures
        (exists|i: int| 0 <= i < list@.len() && (#[trigger] list@[i])@ == server_ip)
            <==> manager@.scan_ips.contains(server_ip) && !going_on(manager@, server_ip),
{
    let free = |ip: Seq<char>| !manager@.connecting(ip);
    let chosen = manager@.scan_ips.filter(free);
    let listed = crate::scan_manager::texts(list@);
    assert(listed == chosen);
    lemma_filtered(manager@.scan_ips, free, server_ip);
    if chosen.contains(server_ip) {
        let i = choose|i: int| 0 <= i < chosen.len() && chosen[i] == server_ip;
        assert(list@[i]@ == listed[i]);
    }
    if exists|i: int| 0 <= i < list@.len() && (#[trigger] list@[i])@ == server_ip {
        let i = choose|i: int| 0 <= i < list@.len() && (#[trigger] list@[i])@ == server_ip;
        assert(listed[i] == server_ip);
        assert(chosen.contains(server_ip));
    }
}

/// An attempt is begun unless the scan has ended, and is then going on; no other
/// attempt is touched.
pub proof fn lemma_an_attempt_that_is_begun_is_going_on(
    manager: &mut ScanManager,
    server_ip: &str,
    go_on: bool,
    other: Seq<char>,
)
    requires
        call_ensures(ScanManager::begin_attempt, (manager, server_ip), go_on),
    ensures
        go_on <==> !old(manager)@.stopped,
        go_on ==> going_on(final(manager)@, server_ip@) && !found_at(
            final(manager)@,
            server_ip@,
        ),
        !go_on ==> final(manager)@ == old(manager)@,
        other != server_ip@ ==> (going_on(final(manager)@, other) <==> going_on(
            old(manager)@,
            other,
        )) && (found_at(final(manager)@, other) <==> found_at(old(manager)@, other)),
        final(manager)@.stopped == old(manager)@.stopped,
        final(manager)@.scan_ips == old(manager)@.scan_ips,
        final(manager)@.max_concurrent == old(manager)@.max_concurrent,
{
}

/// An attempt that ends without a connection is over, leads to no server and
/// does not end the scan; no other attempt is touched.
pub proof fn lemma_an_attempt_that_fails_is_over(
    manager: &mut ScanManager,
    server_ip: &str,
    outcome: DialOutcome,
    done: (),
    other: Seq<char>,
)
    requires
        call_ensures(ScanManager::end_attempt, (manager, server_ip, outcome), done),
        !(outcome is Connected),
    ensures
        !going_on(final(manager)@, server_ip@),
        !found_at(final(manager)@, server_ip@),
        final(manager)@.stopped == old(manager)@.stopped,
        final(manager)@.attempts.contains_key(server_ip@) <==> old(
            manager
        )@.attempts.contains_key(server_ip@),
        final(manager)@.attempts.contains_key(server_ip@) ==> {
            &&& outcome is Refused ==> final(manager)@.attempts[server_ip@].status
                == WebSocketStatus::ConnectionRefused
            &&& !(outcome is Refused) ==> final(manager)@.attempts[server_ip@].status
                == WebSocketStatus::Timeout
        },
        other != server_ip@ ==> (going_on(final(manager)@, other) <==> going_on(
            old(manager)@,
            other,
        )) && (found_at(final(manager)@, other) <==> found_at(old(manager)@, other)),
        final(manager)@.scan_ips == old(manager)@.scan_ips,
{
}

/// Dialing comes to a connection over its stream, to a refusal, or to a timeout
/// in all other cases.
pub proof fn lemma_what_dialing_comes_to(
    outcome: DialOutcome,
    status: (WebSocketStatus, Option<u64>),
)
    requires
        call_ensures(check_connection, (outcome,), status),
    ensures
        status.1 is Some <==> outcome is Connected,
        status.0 == WebSocketStatus::Connected <==> outcome is Connected,
        (outcome matches DialOutcome::Connected(stream) ==> status.1 == Some(stream)),
        status.0 == WebSocketStatus::ConnectionRefused <==> outcome is Refused,
        status.0 == WebSocketStatus::Timeout <==> outcome is Failed || outcome is TimedOut,
{
}

/// The table of a scan: an attempt that is begun is noted under its address, one
/// that has ended with what came of it, if it was begun; and there is a
/// connection to take exactly when some attempt has led to one.
pub proof fn lemma_attempts_are_noted(
    starting: &mut DashMap<String, ConnectionState>,
    server_ip: &str,
    started: (),
    ending: &mut DashMap<String, ConnectionState>,
    status: (WebSocketStatus, Option<u64>),
    ended: (),
    table: &DashMap<String, ConnectionState>,
    any: bool,
)
    requires
        call_ensures(
            <DashMap<String, ConnectionState> as ConnectionManager>::start_connection,
            (starting, server_ip),
            started,
        ),
        call_ensures(
            <DashMap<String, ConnectionState> as ConnectionManager>::end_connection,
            (ending, server_ip, status),
            ended,
        ),
        call_ensures(
            <DashMap<String, ConnectionState> as ConnectionManager>::is_connected,
            (table,),
            any,
        ),
    ensures
        starting_is_noted(old(starting).attempts(), final(starting).attempts(), server_ip@),
        !old(ending).attempts().contains_key(server_ip@) ==> final(ending).attempts() == old(
            ending
        ).attempts(),
        old(ending).attempts().contains_key(server_ip@) ==> {
            &&& final(ending).attempts().dom() == old(ending).attempts().dom()
            &&& final(ending).attempts()[server_ip@].status == status.0
            &&& final(ending).attempts()[server_ip@].ws_stream == status.1
            &&& !final(ending).attempts()[server_ip@].is_connecting
            &&& final(ending).attempts().remove(server_ip@) == old(ending).attempts().remove(
                server_ip@,
            )
        },
        any <==> exists|other: Seq<char>| #[trigger]
            table.attempts().contains_key(other) && table.attempts()[other].status
                == WebSocketStatus::Connected && table.attempts()[other].ws_stream is Some,
{
    assert(final(ending).attempts().remove(server_ip@) =~= old(ending).attempts().remove(
        server_ip@,
    ));
    if old(ending).attempts().contains_key(server_ip@) {
        assert(final(ending).attempts().dom() =~= old(ending).attempts().dom());
    }
    assert(final(starting).attempts().remove(server_ip@) =~= old(starting).attempts().remove(
        server_ip@,
    ));
    if any {
        let other = choose|other: Seq<char>|
            crate::connection_state::connected_at(table.attempts(), other);
        assert(table.attempts().contains_key(other));
    }
    if exists|other: Seq<char>| #[trigger]
        table.attempts().contains_key(other) && table.attempts()[other].status
            == WebSocketStatus::Connected && table.attempts()[other].ws_stream is Some {
        let other = choose|other: Seq<char>| #[trigger]
            table.attempts().contains_key(other) && table.attempts()[other].status
                == WebSocketStatus::Connected && table.attempts()[other].ws_stream is Some;
        assert(crate::connection_state::connected_at(table.attempts(), other));
    }
}

/// Whether an attempt at this address, and nothing else, has been noted as begun.
pub open spec fn starting_is_noted(
    before: Map<Seq<char>, ConnectionState>,
    after: Map<Seq<char>, ConnectionState>,
    server_ip: Seq<char>,
) -> bool {
    &&& after.contains_key(server_ip)
    &&& after[server_ip].is_connecting
    &&& after[server_ip].status == WebSocketStatus::Connecting
    &&& after[server_ip].ws_stream is None
    &&& after.remove(server_ip) == before.remove(server_ip)
}

} // verus!
