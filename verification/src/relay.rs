//! Relay bookkeeping and the transport-agnostic pump rules.
//!
//! A relay job is identified by its (entry_point, exit_point) pair. The
//! manager keeps the table of active jobs: starting a pair that is already
//! active is an idempotent no-op that leaves exactly one job, stopping
//! removes the entry. How the outbound leg is opened — plain socket,
//! symmetric-encrypted, or WebSocket with a derived URL — is decided here
//! as a plan; the socket plumbing carries it out. While a connection runs,
//! every forwarded chunk passes through one accounting step that consults
//! the rate limiter and updates the statistics.

use vstd::prelude::*;
use crate::kvmap::{kv_find, kv_map, kv_unique, lemma_kv_contains, lemma_kv_index, lemma_kv_push,
    lemma_kv_remove};
use crate::limiter::{spec_cost, RateLimiter};
use crate::stats::StatsCollector;
use crate::strutil::{spec_has_prefix, spec_until_slash, str_starts_with, until_slash};
use crate::types::{RelayConfig, TransportType};
use vstd::string::StringExecFns;
use vstd::string::StrSliceExecFns;
use vstd::wrapping::u64_specs;

verus! {

/// The bookkeeping key of a relay job: entry point and exit point joined
/// with a colon.
pub open spec fn spec_relay_id(entry_point: Seq<char>, exit_point: Seq<char>) -> Seq<char> {
    entry_point + ":"@ + exit_point
}

/// Builds the bookkeeping key for a relay job.
pub fn relay_id(entry_point: &String, exit_point: &String) -> (id: String)
    ensures
        id@ == spec_relay_id(entry_point@, exit_point@),
{
    let mut id = entry_point.clone();
    id.append(":");
    id.append(exit_point.as_str());
    id
}

/// The table of active relay jobs, keyed by (entry_point, exit_point).
pub struct RelayManager {
    active_relays: Vec<(String, RelayConfig)>,
}

impl RelayManager {
    /// The active jobs, keyed by their id, in table order.
    pub closed spec fn spec_entries(self) -> Seq<(String, RelayConfig)> {
        self.active_relays@
    }

    /// The active jobs as a map from id to descriptor.
    pub open spec fn spec_active(self) -> Map<Seq<char>, RelayConfig> {
        kv_map(self.spec_entries())
    }

    /// No pair is ever listed twice: at most one active job per identity.
    pub closed spec fn wf(self) -> bool {
        kv_unique(self.active_relays@)
    }

    /// An empty table: no active relays.
    pub fn new() -> (manager: RelayManager)
        ensures
            manager.wf(),
            manager.spec_active() =~= Map::<Seq<char>, RelayConfig>::empty(),
            manager.spec_entries() =~= Seq::<(String, RelayConfig)>::empty(),
    {
        RelayManager { active_relays: Vec::new() }
    }

    /// Starts a relay job: a new (entry_point, exit_point) pair is recorded
    /// as active; a pair that is already active is left untouched — the
    /// start is an idempotent no-op and exactly one job remains. Reports
    /// whether a new job was recorded.
    pub fn start_relay(&mut self, config: RelayConfig) -> (started: bool)
        requires
            old(self).wf(),
        ensures
            final(self).wf(),
            started == !old(self).spec_active().contains_key(
                spec_relay_id(config.entry_point@, config.exit_point@),
            ),
            started ==> final(self).spec_active() =~= old(self).spec_active().insert(
                spec_relay_id(config.entry_point@, config.exit_point@),
                config,
            ),
            !started ==> final(self).spec_entries() == old(self).spec_entries(),
    {
        let id = relay_id(&config.entry_point, &config.exit_point);
        proof {
            lemma_kv_contains(self.active_relays@, id@);
        }
        match kv_find(&self.active_relays, &id) {
            Some(_) => false,
            None => {
                let ghost before = self.active_relays@;
                self.active_relays.push((id, config));
                proof {
                    lemma_kv_push(before, self.active_relays@.last());
                }
                true
            },
        }
    }

    /// Stops the job for the pair, removing its table entry; stopping a
    /// pair that is not active changes nothing.
    pub fn stop_relay(&mut self, entry_point: &String, exit_point: &String)
        requires
            old(self).wf(),
        ensures
            final(self).wf(),
            final(self).spec_active() =~= old(self).spec_active().remove(
                spec_relay_id(entry_point@, exit_point@),
            ),
    {
        let id = relay_id(entry_point, exit_point);
        proof {
            lemma_kv_contains(self.active_relays@, id@);
        }
        match kv_find(&self.active_relays, &id) {
            Some(i) => {
                proof {
                    lemma_kv_index(self.active_relays@, i as int);
                    lemma_kv_remove(self.active_relays@, i as int);
                }
                self.active_relays.remove(i);
            },
            None => {
                proof {
                    assert(self.spec_active() =~= self.spec_active().remove(id@));
                }
            },
        }
    }

    /// Whether the pair currently has an active job.
    pub fn is_active(&self, entry_point: &String, exit_point: &String) -> (active: bool)
        requires
            self.wf(),
        ensures
            active == self.spec_active().contains_key(
                spec_relay_id(entry_point@, exit_point@),
            ),
    {
        let id = relay_id(entry_point, exit_point);
        proof {
            lemma_kv_contains(self.active_relays@, id@);
        }
        match kv_find(&self.active_relays, &id) {
            Some(_) => true,
            None => false,
        }
    }

    /// The ids of all active jobs, in table order.
    pub fn list_active_relays(&self) -> (ids: Vec<String>)
        requires
            self.wf(),
        ensures
            ids@.len() == self.spec_entries().len(),
            forall|i: int| 0 <= i < ids@.len() ==> ids@[i]@
                == (#[trigger] self.spec_entries()[i]).0@,
    {
        let mut ids: Vec<String> = Vec::new();
        let mut i: usize = 0;
        while i < self.active_relays.len()
            invariant
                i <= self.active_relays@.len(),
                ids@.len() == i,
                forall|j: int| 0 <= j < i ==> ids@[j]@ == (#[trigger] self.active_relays@[j]).0@,
            decreases self.active_relays@.len() - i,
        {
            ids.push(self.active_relays[i].0.clone());
            i = i + 1;
        }
        ids
    }
}

/// Two distinct (entry_point, exit_point) pairs live independently in the
/// table: starting both records both, each under its own descriptor, and
/// starting a pair that is already active leaves the table — and so the
/// one existing job — exactly as it was.
pub proof fn lemma_distinct_relays_independent(
    active: Map<Seq<char>, RelayConfig>,
    first: RelayConfig,
    second: RelayConfig,
)
    requires
        spec_relay_id(first.entry_point@, first.exit_point@) != spec_relay_id(
            second.entry_point@,
            second.exit_point@,
        ),
    ensures
        ({
            let both = active.insert(
                spec_relay_id(first.entry_point@, first.exit_point@),
                first,
            ).insert(spec_relay_id(second.entry_point@, second.exit_point@), second);
            &&& both[spec_relay_id(first.entry_point@, first.exit_point@)] == first
            &&& both[spec_relay_id(second.entry_point@, second.exit_point@)] == second
        }),
{
}

/// Whether a relay descriptor's entry point is an address this process
/// should bind and listen on; a descriptor without a local bind address is
/// outbound-only and accepts no inbound connections itself.
pub fn should_listen(entry_point: &String) -> (listen: bool)
    ensures
        listen == (spec_has_prefix(entry_point@, "0.0.0.0:"@) || spec_has_prefix(
            entry_point@,
            "127.0.0.1:"@,
        )),
{
    str_starts_with(entry_point.as_str(), "0.0.0.0:") || str_starts_with(
        entry_point.as_str(),
        "127.0.0.1:",
    )
}

/// The WebSocket URL for an exit point: an exit point that is already a
/// `ws://` or `wss://` URL is used as it stands; a bare address gets the
/// `ws://` scheme and the relay path.
pub open spec fn spec_ws_url(exit_point: Seq<char>) -> Seq<char> {
    if spec_has_prefix(exit_point, "ws://"@) || spec_has_prefix(exit_point, "wss://"@) {
        exit_point
    } else {
        "ws://"@ + exit_point + "/relay"@
    }
}

/// The host:port part of a WebSocket URL: what stands between the scheme
/// and the first slash of the path.
pub open spec fn spec_ws_host_port(url: Seq<char>) -> Seq<char> {
    if spec_has_prefix(url, "ws://"@) {
        spec_until_slash(url.skip(5))
    } else if spec_has_prefix(url, "wss://"@) {
        spec_until_slash(url.skip(6))
    } else {
        url
    }
}

/// How the outbound leg of a relay connection is to be opened. The plan
/// for a WebSocket exit carries both the derived URL and the host:port to
/// dial.
pub enum ConnectPlan {
    /// Dial this address and pass bytes through untouched.
    Direct { addr: String },
    /// Dial this address and wrap the stream with the symmetric cipher.
    Encrypted { addr: String },
    /// Perform a WebSocket handshake on `url`, dialing `tcp_addr`.
    WebSocket { url: String, tcp_addr: String },
}

/// Decides how to open the outbound leg for a descriptor: direct and
/// encrypted transports dial the exit point as given; the WebSocket
/// transport derives the URL and the host:port to dial from it.
pub fn connect_plan(config: &RelayConfig) -> (plan: ConnectPlan)
    ensures
        config.transport_type == TransportType::Direct ==> (plan matches ConnectPlan::Direct {
            addr,
        } && addr@ == config.exit_point@),
        config.transport_type == TransportType::Encrypted ==> (plan matches ConnectPlan::Encrypted {
            addr,
        } && addr@ == config.exit_point@),
        config.transport_type == TransportType::WebSocket ==> (plan matches ConnectPlan::WebSocket {
            url,
            tcp_addr,
        } && url@ == spec_ws_url(config.exit_point@) && tcp_addr@ == spec_ws_host_port(
            spec_ws_url(config.exit_point@),
        )),
{
    match config.transport_type {
        TransportType::Direct => ConnectPlan::Direct { addr: config.exit_point.clone() },
        TransportType::Encrypted => ConnectPlan::Encrypted { addr: config.exit_point.clone() },
        TransportType::WebSocket => {
            let url: String = if str_starts_with(config.exit_point.as_str(), "ws://")
                || str_starts_with(config.exit_point.as_str(), "wss://") {
                config.exit_point.clone()
            } else {
                let mut built = <String as StringExecFns>::from_str("ws://");
                built.append(config.exit_point.as_str());
                built.append("/relay");
                built
            };
            proof {
                reveal_strlit("ws://");
                reveal_strlit("wss://");
            }
            let tcp_addr: String = if str_starts_with(url.as_str(), "ws://") {
                let stripped = url.as_str().substring_char(5, url.as_str().unicode_len());
                proof {
                    assert(stripped@ =~= url@.skip(5));
                }
                until_slash(stripped)
            } else if str_starts_with(url.as_str(), "wss://") {
                let stripped = url.as_str().substring_char(6, url.as_str().unicode_len());
                proof {
                    assert(stripped@ =~= url@.skip(6));
                }
                until_slash(stripped)
            } else {
                url.clone()
            };
            ConnectPlan::WebSocket { url, tcp_addr }
        },
    }
}

/// Which way a chunk is travelling through a relay connection.
#[derive(Debug, Clone, Copy, PartialEq, Eq, Structural)]
pub enum Direction {
    /// From the inbound connection toward the exit point.
    EntryToExit,
    /// From the exit point back toward the inbound connection.
    ExitToEntry,
}

/// The per-connection accounting a relay pump runs its chunks through:
/// live statistics and, when configured, a byte-rate ceiling.
pub struct TrafficPump {
    /// Live statistics, updated as each chunk is forwarded.
    pub stats: StatsCollector,
    /// The byte-rate ceiling, when one is configured.
    pub limiter: Option<RateLimiter>,
}

impl TrafficPump {
    /// Statistics well formed, and the limiter too when present.
    pub open spec fn wf(self) -> bool {
        self.stats.wf() && (self.limiter is Some ==> self.limiter->0.wf())
    }

    /// A pump with fresh statistics; `bytes_per_second` of zero means no
    /// ceiling at all.
    pub fn new(bytes_per_second: u32) -> (pump: TrafficPump)
        ensures
            pump.wf(),
            pump.stats.spec_bytes_sent() == 0,
            pump.stats.spec_bytes_received() == 0,
            pump.stats.spec_connections() == 0,
            bytes_per_second == 0 <==> pump.limiter is None,
    {
        TrafficPump {
            stats: StatsCollector::new(),
            limiter: if bytes_per_second > 0 {
                Some(RateLimiter::new(bytes_per_second))
            } else {
                None
            },
        }
    }

    /// Accounts one forwarded chunk: consumes rate-limiter budget for it —
    /// returning how many milliseconds the pump must pause before writing,
    /// zero when no ceiling is configured or the budget is on hand — and
    /// adds the chunk to the statistics counter of its direction, as the
    /// data flows rather than when the connection ends.
    pub fn account_chunk(&mut self, now_ms: u64, bytes: usize, direction: Direction) -> (delay_ms:
        u64)
        requires
            old(self).wf(),
            bytes <= u32::MAX,
        ensures
            final(self).wf(),
            old(self).limiter is None ==> delay_ms == 0,
            old(self).limiter is Some ==> {
                &&& final(self).limiter is Some
                &&& (delay_ms == 0 <==> spec_cost(bytes as nat)
                    <= old(self).limiter->0.spec_refilled(now_ms as nat))
            },
            direction == Direction::EntryToExit ==> final(self).stats.spec_bytes_sent()
                == u64_specs::wrapping_add(old(self).stats.spec_bytes_sent(), bytes as u64)
                && final(self).stats.spec_bytes_received()
                == old(self).stats.spec_bytes_received(),
            direction == Direction::ExitToEntry ==> final(self).stats.spec_bytes_received()
                == u64_specs::wrapping_add(old(self).stats.spec_bytes_received(), bytes as u64)
                && final(self).stats.spec_bytes_sent() == old(self).stats.spec_bytes_sent(),
            final(self).stats.spec_connections() == old(self).stats.spec_connections(),
            final(self).stats.spec_details() == old(self).stats.spec_details(),
    {
        let delay_ms: u64 = match &mut self.limiter {
            Some(limiter) => limiter.wait_for_capacity(now_ms, bytes),
            None => 0,
        };
        match direction {
            Direction::EntryToExit => self.stats.add_bytes_sent(bytes),
            Direction::ExitToEntry => self.stats.add_bytes_received(bytes),
        }
        delay_ms
    }
}

} // verus!
