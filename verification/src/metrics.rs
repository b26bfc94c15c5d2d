//! Counters for watching connections and messages.

use vstd::prelude::*;

verus! {

/// Counts what happens to connections and messages. A counter that has
/// reached its largest value starts again at zero.
#[derive(Debug)]
pub struct Metrics {
    /// Total messages sent
    pub messages_sent: u64,
    /// Total messages received
    pub messages_received: u64,
    /// Messages dropped because there was no room for them
    pub messages_dropped: u64,
    /// Total connections established
    pub connections_total: u64,
    /// Currently active connections
    pub connections_active: u64,
    /// Total reconnection attempts
    pub reconnections: u64,
    /// Total send errors encountered
    pub send_errors: u64,
}

/// The counters at one moment.
#[derive(Debug, Clone, Copy, PartialEq, Eq, Structural)]
pub struct MetricsSnapshot {
    pub messages_sent: u64,
    pub messages_received: u64,
    pub messages_dropped: u64,
    pub connections_total: u64,
    pub connections_active: u64,
    pub reconnections: u64,
    pub send_errors: u64,
}

/// A counter after one more.
pub open spec fn counted(n: u64) -> u64 {
    if n == u64::MAX {
        0
    } else {
        (n + 1) as u64
    }
}

/// A counter after one less; it stops at zero.
pub open spec fn uncounted(n: u64) -> u64 {
    if n == 0 {
        0
    } else {
        (n - 1) as u64
    }
}

/// One more.
fn count_up(n: u64) -> (m: u64)
    ensures
        m == counted(n),
{
    if n == u64::MAX {
        0
    } else {
        n + 1
    }
}

impl Metrics {
    /// All counters at zero.
    pub open spec fn zero() -> Metrics {
        Metrics {
            messages_sent: 0,
            messages_received: 0,
            messages_dropped: 0,
            connections_total: 0,
            connections_active: 0,
            reconnections: 0,
            send_errors: 0,
        }
    }

    /// All counters at zero.
    pub fn new() -> (metrics: Self)
        ensures
            metrics == Metrics::zero(),
    {
        Metrics {
            messages_sent: 0,
            messages_received: 0,
            messages_dropped: 0,
            connections_total: 0,
            connections_active: 0,
            reconnections: 0,
            send_errors: 0,
        }
    }

    /// The counters as they are now.
    pub fn snapshot(&self) -> (snapshot: MetricsSnapshot)
        ensures
            snapshot == (MetricsSnapshot {
                messages_sent: self.messages_sent,
                messages_received: self.messages_received,
                messages_dropped: self.messages_dropped,
                connections_total: self.connections_total,
                connections_active: self.connections_active,
                reconnections: self.reconnections,
                send_errors: self.send_errors,
            }),
    {
        MetricsSnapshot {
            messages_sent: self.messages_sent,
            messages_received: self.messages_received,
            messages_dropped: self.messages_dropped,
            connections_total: self.connections_total,
            connections_active: self.connections_active,
            reconnections: self.reconnections,
            send_errors: self.send_errors,
        }
    }

    pub fn inc_messages_sent(&mut self)
        ensures
            *final(self) == (Metrics {
                messages_sent: counted(old(self).messages_sent),
                ..*old(self)
            }),
    {
        self.messages_sent = count_up(self.messages_sent);
    }

    pub fn inc_messages_received(&mut self)
        ensures
            *final(self) == (Metrics {
                messages_received: counted(old(self).messages_received),
                ..*old(self)
            }),
    {
        self.messages_received = count_up(self.messages_received);
    }

    pub fn inc_messages_dropped(&mut self)
        ensures
            *final(self) == (Metrics {
                messages_dropped: counted(old(self).messages_dropped),
                ..*old(self)
            }),
    {
        self.messages_dropped = count_up(self.messages_dropped);
    }

    pub fn inc_connections_total(&mut self)
        ensures
            *final(self) == (Metrics {
                connections_total: counted(old(self).connections_total),
                ..*old(self)
            }),
    {
        self.connections_total = count_up(self.connections_total);
    }

    pub fn inc_connections_active(&mut self)
        ensures
            *final(self) == (Metrics {
                connections_active: counted(old(self).connections_active),
                ..*old(self)
            }),
    {
        self.connections_active = count_up(self.connections_active);
    }

    pub fn dec_connections_active(&mut self)
        ensures
            *final(self) == (Metrics {
                connections_active: uncounted(old(self).connections_active),
                ..*old(self)
            }),
    {
        if self.connections_active > 0 {
            self.connections_active = self.connections_active - 1;
        }
    }

    pub fn inc_reconnections(&mut self)
        ensures
            *final(self) == (Metrics {
                reconnections: counted(old(self).reconnections),
                ..*old(self)
            }),
    {
        self.reconnections = count_up(self.reconnections);
    }

    pub fn inc_send_errors(&mut self)
        ensures
            *final(self) == (Metrics { send_errors: counted(old(self).send_errors), ..*old(self) }),
    {
        self.send_errors = count_up(self.send_errors);
    }
}

impl Default for Metrics {
    fn default() -> (metrics: Self)
        ensures
            metrics == Metrics::zero(),
    {
        Metrics::new()
    }
}

} // verus!
