//! The local forwarding proxy: listens on one address, forwards to
//! another, and runs every connection's chunks through the traffic pump —
//! statistics always, a byte-rate ceiling when one is configured.
//!
//! Accepting sockets and copying bytes is transport plumbing; the
//! addresses, the ceiling arithmetic and the per-chunk accounting are
//! decided here.

use vstd::prelude::*;
use crate::relay::TrafficPump;

verus! {

/// The bytes-per-second ceiling a megabit-per-second setting means:
/// `mbps` megabits, eight bits to the byte, capped at what the limiter
/// can hold.
pub open spec fn spec_mbps_to_bytes_per_second(mbps: u32) -> nat {
    if mbps * 1024 * 1024 / 8 > u32::MAX {
        u32::MAX as nat
    } else {
        (mbps * 1024 * 1024 / 8) as nat
    }
}

/// The forwarding proxy's bookkeeping: its two addresses and the traffic
/// pump every connection's chunks pass through.
pub struct ProxyServer {
    /// The address the proxy listens on.
    pub listen_addr: String,
    /// The address every accepted connection is forwarded to.
    pub target_addr: String,
    /// Statistics and the optional byte-rate ceiling.
    pub pump: TrafficPump,
}

impl ProxyServer {
    /// A proxy between the two addresses, with fresh statistics and no
    /// rate ceiling.
    pub fn new(listen_addr: String, target_addr: String) -> (proxy: ProxyServer)
        ensures
            proxy.pump.wf(),
            proxy.listen_addr == listen_addr,
            proxy.target_addr == target_addr,
            proxy.pump.limiter is None,
            proxy.pump.stats.spec_bytes_sent() == 0,
            proxy.pump.stats.spec_bytes_received() == 0,
            proxy.pump.stats.spec_connections() == 0,
    {
        ProxyServer { listen_addr, target_addr, pump: TrafficPump::new(0) }
    }

    /// The proxy with a throughput ceiling of `mbps` megabits per second;
    /// zero means no ceiling.
    pub fn with_rate_limit(self, mbps: u32) -> (proxy: ProxyServer)
        requires
            self.pump.wf(),
        ensures
            proxy.pump.wf(),
            proxy.listen_addr == self.listen_addr,
            proxy.target_addr == self.target_addr,
            mbps == 0 ==> proxy == self,
            mbps > 0 ==> proxy.pump.wf() && proxy.pump.limiter is Some
                && proxy.pump.limiter->0.spec_rate() == spec_mbps_to_bytes_per_second(mbps)
                && proxy.pump.stats == self.pump.stats,
    {
        if mbps > 0 {
            let wide: u64 = (mbps as u64) * 1024 * 1024 / 8;
            let bytes_per_second: u32 = if wide > u32::MAX as u64 {
                u32::MAX
            } else {
                wide as u32
            };
            let limited = TrafficPump { stats: self.pump.stats, limiter: Some(
                crate::limiter::RateLimiter::new(bytes_per_second),
            ) };
            ProxyServer {
                listen_addr: self.listen_addr,
                target_addr: self.target_addr,
                pump: limited,
            }
        } else {
            self
        }
    }
}

} // verus!
