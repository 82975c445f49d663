//! Live traffic statistics for the relay subsystem.
//!
//! Aggregate byte and connection counters, plus a per-peer detail table
//! keyed by peer address. A peer's entry is created when its connection is
//! accepted and removed when the connection closes; an entry for a reused
//! peer address is overwritten by the newer connection. Counters wrap
//! around on overflow rather than stopping the relay.

use vstd::prelude::*;
use vstd::wrapping::u64_specs;
use crate::kvmap::{kv_find, kv_map, kv_unique, lemma_kv_contains, lemma_kv_index, lemma_kv_push,
    lemma_kv_remove};

verus! {

/// Byte counters for one connection, with the time it was accepted
/// (milliseconds on the caller's clock).
#[derive(Debug, Clone)]
pub struct ConnectionStats {
    pub bytes_sent: u64,
    pub bytes_received: u64,
    pub connected_at_ms: u64,
}

impl ConnectionStats {
    /// A fresh counter pair for a connection accepted at time zero.
    pub fn new() -> (stats: ConnectionStats)
        ensures
            stats.bytes_sent == 0,
            stats.bytes_received == 0,
            stats.connected_at_ms == 0,
    {
        ConnectionStats { bytes_sent: 0, bytes_received: 0, connected_at_ms: 0 }
    }

    /// A fresh counter pair for a connection accepted at `now_ms`.
    pub fn opened_at(now_ms: u64) -> (stats: ConnectionStats)
        ensures
            stats.bytes_sent == 0,
            stats.bytes_received == 0,
            stats.connected_at_ms == now_ms,
    {
        ConnectionStats { bytes_sent: 0, bytes_received: 0, connected_at_ms: now_ms }
    }
}

/// A snapshot of the aggregate counters.
#[derive(Debug, Clone)]
pub struct Stats {
    pub bytes_sent: u64,
    pub bytes_received: u64,
    pub total_connections: u64,
    pub active_connections: u64,
}

/// Collects live statistics for the relay subsystem: aggregate byte and
/// connection counters and a per-peer detail table.
pub struct StatsCollector {
    bytes_sent: u64,
    bytes_received: u64,
    connections: u64,
    connection_details: Vec<(String, ConnectionStats)>,
}

impl StatsCollector {
    /// Lifetime bytes forwarded toward exit points.
    pub closed spec fn spec_bytes_sent(self) -> u64 {
        self.bytes_sent
    }

    /// Lifetime bytes forwarded back toward entry points.
    pub closed spec fn spec_bytes_received(self) -> u64 {
        self.bytes_received
    }

    /// Lifetime count of accepted connections.
    pub closed spec fn spec_connections(self) -> u64 {
        self.connections
    }

    /// The per-peer detail table as a map from peer address to entry.
    pub closed spec fn spec_details(self) -> Map<Seq<char>, ConnectionStats> {
        kv_map(self.connection_details@)
    }

    /// Number of peers currently in the detail table.
    pub closed spec fn spec_active(self) -> nat {
        self.connection_details@.len()
    }

    /// The detail table never lists a peer twice.
    pub closed spec fn wf(self) -> bool {
        kv_unique(self.connection_details@)
    }

    /// An empty collector: zero counters, no peers.
    pub fn new() -> (collector: StatsCollector)
        ensures
            collector.wf(),
            collector.spec_bytes_sent() == 0,
            collector.spec_bytes_received() == 0,
            collector.spec_connections() == 0,
            collector.spec_details() =~= Map::<Seq<char>, ConnectionStats>::empty(),
            collector.spec_active() == 0,
    {
        StatsCollector {
            bytes_sent: 0,
            bytes_received: 0,
            connections: 0,
            connection_details: Vec::new(),
        }
    }

    /// Adds forwarded bytes to the sent counter, wrapping on overflow.
    pub fn add_bytes_sent(&mut self, bytes: usize)
        requires
            old(self).wf(),
        ensures
            final(self).wf(),
            final(self).spec_bytes_sent() == u64_specs::wrapping_add(
                old(self).spec_bytes_sent(),
                bytes as u64,
            ),
            final(self).spec_bytes_received() == old(self).spec_bytes_received(),
            final(self).spec_connections() == old(self).spec_connections(),
            final(self).spec_details() == old(self).spec_details(),
            final(self).spec_active() == old(self).spec_active(),
    {
        self.bytes_sent = self.bytes_sent.wrapping_add(bytes as u64);
    }

    /// Adds forwarded bytes to the received counter, wrapping on overflow.
    pub fn add_bytes_received(&mut self, bytes: usize)
        requires
            old(self).wf(),
        ensures
            final(self).wf(),
            final(self).spec_bytes_received() == u64_specs::wrapping_add(
                old(self).spec_bytes_received(),
                bytes as u64,
            ),
            final(self).spec_bytes_sent() == old(self).spec_bytes_sent(),
            final(self).spec_connections() == old(self).spec_connections(),
            final(self).spec_details() == old(self).spec_details(),
            final(self).spec_active() == old(self).spec_active(),
    {
        self.bytes_received = self.bytes_received.wrapping_add(bytes as u64);
    }

    /// Records a newly accepted connection from `peer` at time `now_ms`:
    /// bumps the lifetime connection count (wrapping on overflow) and puts a
    /// fresh entry for the peer in the detail table, overwriting any entry a
    /// previous connection from the same address left behind.
    pub fn new_connection(&mut self, peer: String, now_ms: u64)
        requires
            old(self).wf(),
        ensures
            final(self).wf(),
            final(self).spec_connections() == u64_specs::wrapping_add(
                old(self).spec_connections(),
                1,
            ),
            final(self).spec_details() =~= old(self).spec_details().insert(
                peer@,
                ConnectionStats { bytes_sent: 0, bytes_received: 0, connected_at_ms: now_ms },
            ),
            final(self).spec_active() == if old(self).spec_details().contains_key(peer@) {
                old(self).spec_active()
            } else {
                old(self).spec_active() + 1
            },
            final(self).spec_bytes_sent() == old(self).spec_bytes_sent(),
            final(self).spec_bytes_received() == old(self).spec_bytes_received(),
    {
        self.connections = self.connections.wrapping_add(1);
        proof {
            lemma_kv_contains(self.connection_details@, peer@);
        }
        match kv_find(&self.connection_details, &peer) {
            Some(i) => {
                let ghost before = self.connection_details@;
                proof {
                    lemma_kv_remove(before, i as int);
                }
                self.connection_details.remove(i);
                self.connection_details.push((peer, ConnectionStats::opened_at(now_ms)));
                proof {
                    assert(self.connection_details@.drop_last() =~= before.remove(i as int));
                    assert(kv_map(self.connection_details@) =~= kv_map(before).insert(
                        self.connection_details@.last().0@,
                        self.connection_details@.last().1,
                    ));
                    lemma_kv_contains(before.remove(i as int), self.connection_details@.last().0@);
                }
            },
            None => {
                let ghost before = self.connection_details@;
                self.connection_details.push((peer, ConnectionStats::opened_at(now_ms)));
                proof {
                    assert(self.connection_details@.drop_last() =~= before);
                }
            },
        }
    }

    /// Drops the detail entry for `peer`, if one is present; the aggregate
    /// counters keep their lifetime values.
    pub fn close_connection(&mut self, peer: &String)
        requires
            old(self).wf(),
        ensures
            final(self).wf(),
            final(self).spec_details() =~= old(self).spec_details().remove(peer@),
            final(self).spec_active() == if old(self).spec_details().contains_key(peer@) {
                (old(self).spec_active() - 1) as nat
            } else {
                old(self).spec_active()
            },
            final(self).spec_bytes_sent() == old(self).spec_bytes_sent(),
            final(self).spec_bytes_received() == old(self).spec_bytes_received(),
            final(self).spec_connections() == old(self).spec_connections(),
    {
        proof {
            lemma_kv_contains(self.connection_details@, peer@);
        }
        match kv_find(&self.connection_details, peer) {
            Some(i) => {
                proof {
                    lemma_kv_remove(self.connection_details@, i as int);
                }
                self.connection_details.remove(i);
            },
            None => {
                proof {
                    assert(self.spec_details() =~= self.spec_details().remove(peer@));
                }
            },
        }
    }

    /// A snapshot of the aggregate counters; the active count is the number
    /// of peers currently in the detail table.
    pub fn get_stats(&self) -> (stats: Stats)
        requires
            self.wf(),
            self.spec_active() <= u64::MAX,
        ensures
            stats.bytes_sent == self.spec_bytes_sent(),
            stats.bytes_received == self.spec_bytes_received(),
            stats.total_connections == self.spec_connections(),
            stats.active_connections == self.spec_active(),
    {
        Stats {
            bytes_sent: self.bytes_sent,
            bytes_received: self.bytes_received,
            total_connections: self.connections,
            active_connections: self.connection_details.len() as u64,
        }
    }

    /// The connect time recorded for `peer`, if its connection is open.
    pub fn peer_connected_at(&self, peer: &String) -> (connected: Option<u64>)
        requires
            self.wf(),
        ensures
            match connected {
                Some(at_ms) => self.spec_details().contains_key(peer@)
                    && self.spec_details()[peer@].connected_at_ms == at_ms,
                None => !self.spec_details().contains_key(peer@),
            },
    {
        proof {
            lemma_kv_contains(self.connection_details@, peer@);
        }
        match kv_find(&self.connection_details, peer) {
            Some(i) => {
                proof {
                    lemma_kv_index(self.connection_details@, i as int);
                }
                Some(self.connection_details[i].1.connected_at_ms)
            },
            None => None,
        }
    }
}

} // verus!
