//! Metric computation: turning raw samples from the host — memory, disks,
//! network interface counters — into the metrics snapshot an agent
//! reports.
//!
//! Reading the counters is the host plumbing's job; every sum, rate and
//! history rule is decided here, over plain numbers, so the whole
//! computation is a function of the samples and the caller's clock.
//! Counters are summed with saturation: a host that overflows a u64 pins
//! the reading rather than panicking the agent.

use vstd::prelude::*;
use crate::strutil::{spec_has_prefix, str_starts_with};
use crate::types::SystemMetrics;

verus! {

/// Saturating addition on u64-sized naturals.
pub open spec fn spec_add_sat(a: nat, b: nat) -> nat {
    if a + b > u64::MAX {
        u64::MAX as nat
    } else {
        a + b
    }
}

/// Saturating subtraction.
pub open spec fn spec_sub_sat(a: nat, b: nat) -> nat {
    if a >= b {
        (a - b) as nat
    } else {
        0
    }
}

/// One sampled disk: its size and what is still free, in bytes.
#[derive(Debug, Clone, Copy)]
pub struct DiskSpace {
    pub total: u64,
    pub available: u64,
}

/// One sampled network interface: its name and lifetime byte counters.
#[derive(Debug)]
pub struct InterfaceCounters {
    pub name: String,
    pub rx_bytes: u64,
    pub tx_bytes: u64,
}

/// Total space over all sampled disks.
pub open spec fn spec_disk_total(disks: Seq<DiskSpace>) -> nat
    decreases disks.len(),
{
    if disks.len() == 0 {
        0
    } else {
        spec_add_sat(spec_disk_total(disks.drop_last()), disks.last().total as nat)
    }
}

/// Used space over all sampled disks: each disk's size less what is free.
pub open spec fn spec_disk_used(disks: Seq<DiskSpace>) -> nat
    decreases disks.len(),
{
    if disks.len() == 0 {
        0
    } else {
        spec_add_sat(
            spec_disk_used(disks.drop_last()),
            spec_sub_sat(disks.last().total as nat, disks.last().available as nat),
        )
    }
}

/// Whether an interface is a loopback device, by its name.
pub open spec fn spec_is_loopback(name: Seq<char>) -> bool {
    spec_has_prefix(name, "lo"@)
}

/// Received bytes over all sampled interfaces, loopback devices left out.
pub open spec fn spec_net_rx(interfaces: Seq<InterfaceCounters>) -> nat
    decreases interfaces.len(),
{
    if interfaces.len() == 0 {
        0
    } else if spec_is_loopback(interfaces.last().name@) {
        spec_net_rx(interfaces.drop_last())
    } else {
        spec_add_sat(spec_net_rx(interfaces.drop_last()), interfaces.last().rx_bytes as nat)
    }
}

/// Transmitted bytes over all sampled interfaces, loopback devices left
/// out.
pub open spec fn spec_net_tx(interfaces: Seq<InterfaceCounters>) -> nat
    decreases interfaces.len(),
{
    if interfaces.len() == 0 {
        0
    } else if spec_is_loopback(interfaces.last().name@) {
        spec_net_tx(interfaces.drop_last())
    } else {
        spec_add_sat(spec_net_tx(interfaces.drop_last()), interfaces.last().tx_bytes as nat)
    }
}

/// Sums used and total space over the sampled disks.
pub fn disk_totals(disks: &Vec<DiskSpace>) -> (totals: (u64, u64))
    ensures
        totals.0 == spec_disk_used(disks@),
        totals.1 == spec_disk_total(disks@),
{
    let mut used: u64 = 0;
    let mut total: u64 = 0;
    let mut i: usize = 0;
    while i < disks.len()
        invariant
            i <= disks@.len(),
            used == spec_disk_used(disks@.take(i as int)),
            total == spec_disk_total(disks@.take(i as int)),
        decreases disks@.len() - i,
    {
        let disk = disks[i];
        proof {
            assert(disks@.take(i + 1).drop_last() =~= disks@.take(i as int));
            assert(disks@.take(i + 1).last() == disks@[i as int]);
        }
        let free_gap = if disk.total >= disk.available {
            disk.total - disk.available
        } else {
            0
        };
        used = used.saturating_add(free_gap);
        total = total.saturating_add(disk.total);
        i = i + 1;
    }
    proof {
        assert(disks@.take(disks@.len() as int) =~= disks@);
    }
    (used, total)
}

/// Sums the byte counters over the sampled interfaces, skipping loopback
/// devices.
pub fn network_totals(interfaces: &Vec<InterfaceCounters>) -> (totals: (u64, u64))
    ensures
        totals.0 == spec_net_rx(interfaces@),
        totals.1 == spec_net_tx(interfaces@),
{
    let mut rx: u64 = 0;
    let mut tx: u64 = 0;
    let mut i: usize = 0;
    while i < interfaces.len()
        invariant
            i <= interfaces@.len(),
            rx == spec_net_rx(interfaces@.take(i as int)),
            tx == spec_net_tx(interfaces@.take(i as int)),
        decreases interfaces@.len() - i,
    {
        proof {
            assert(interfaces@.take(i + 1).drop_last() =~= interfaces@.take(i as int));
            assert(interfaces@.take(i + 1).last() == interfaces@[i as int]);
        }
        if !str_starts_with(interfaces[i].name.as_str(), "lo") {
            rx = rx.saturating_add(interfaces[i].rx_bytes);
            tx = tx.saturating_add(interfaces[i].tx_bytes);
        }
        i = i + 1;
    }
    proof {
        assert(interfaces@.take(interfaces@.len() as int) =~= interfaces@);
    }
    (rx, tx)
}

/// One point of the network history: the byte counters and when they were
/// read, on the caller's millisecond clock.
#[derive(Debug, Clone, Copy)]
pub struct NetworkSample {
    pub rx_bytes: u64,
    pub tx_bytes: u64,
    pub at_ms: u64,
}

/// The transfer rates between a past sample and the counters now, in
/// bytes per whole elapsed second; no whole second elapsed, or a clock
/// that went backwards, rates as zero.
pub open spec fn spec_rates(prev: NetworkSample, rx_bytes: u64, tx_bytes: u64, now_ms: u64) -> (
    nat,
    nat,
) {
    if now_ms > prev.at_ms && (now_ms - prev.at_ms) / 1000 >= 1 {
        (
            spec_sub_sat(rx_bytes as nat, prev.rx_bytes as nat) / (((now_ms - prev.at_ms)
                / 1000) as nat),
            spec_sub_sat(tx_bytes as nat, prev.tx_bytes as nat) / (((now_ms - prev.at_ms)
                / 1000) as nat),
        )
    } else {
        (0, 0)
    }
}

/// Computes the transfer rates between a past sample and the counters
/// now.
pub fn network_rates(prev: &NetworkSample, rx_bytes: u64, tx_bytes: u64, now_ms: u64) -> (rates: (
    u64,
    u64,
))
    ensures
        rates.0 == spec_rates(*prev, rx_bytes, tx_bytes, now_ms).0,
        rates.1 == spec_rates(*prev, rx_bytes, tx_bytes, now_ms).1,
{
    if now_ms > prev.at_ms {
        let secs = (now_ms - prev.at_ms) / 1000;
        if secs >= 1 {
            let rx_delta = rx_bytes.saturating_sub(prev.rx_bytes);
            let tx_delta = tx_bytes.saturating_sub(prev.tx_bytes);
            return (rx_delta / secs, tx_delta / secs);
        }
        return (0, 0);
    }
    (0, 0)
}

/// A bounded history of network samples, oldest first: when a new sample
/// would exceed the bound, the oldest is dropped.
#[derive(Debug)]
pub struct NetworkHistory {
    samples: Vec<NetworkSample>,
    max_samples: usize,
}

impl NetworkHistory {
    /// The retained samples, oldest first.
    pub closed spec fn spec_samples(self) -> Seq<NetworkSample> {
        self.samples@
    }

    /// How many samples are retained at most.
    pub closed spec fn spec_max(self) -> nat {
        self.max_samples as nat
    }

    /// Never more samples than the bound allows.
    pub closed spec fn wf(self) -> bool {
        self.max_samples >= 1 && self.samples@.len() <= self.max_samples
    }

    /// An empty history retaining at most `max_samples` points; a bound of
    /// zero is raised to one.
    pub fn new(max_samples: usize) -> (history: NetworkHistory)
        ensures
            history.wf(),
            history.spec_samples() =~= Seq::<NetworkSample>::empty(),
            history.spec_max() == if max_samples == 0 { 1nat } else { max_samples as nat },
    {
        NetworkHistory {
            samples: Vec::new(),
            max_samples: if max_samples == 0 { 1 } else { max_samples },
        }
    }

    /// The most recent sample, if any.
    pub fn last_sample(&self) -> (sample: Option<NetworkSample>)
        ensures
            sample is Some <==> self.spec_samples().len() > 0,
            sample is Some ==> sample->0 == self.spec_samples().last(),
    {
        if self.samples.len() > 0 {
            Some(self.samples[self.samples.len() - 1])
        } else {
            None
        }
    }

    /// Appends a sample, dropping the oldest when the history is full.
    pub fn push_sample(&mut self, sample: NetworkSample)
        requires
            old(self).wf(),
        ensures
            final(self).wf(),
            final(self).spec_max() == old(self).spec_max(),
            old(self).spec_samples().len() < old(self).spec_max() ==> final(self).spec_samples()
                == old(self).spec_samples().push(sample),
            old(self).spec_samples().len() == old(self).spec_max() ==> final(self).spec_samples()
                == old(self).spec_samples().push(sample).skip(1),
    {
        self.samples.push(sample);
        if self.samples.len() > self.max_samples {
            self.samples.remove(0);
            proof {
                assert(old(self).spec_samples().push(sample).remove(0) =~= old(
                    self,
                ).spec_samples().push(sample).skip(1));
            }
        }
    }
}

/// Builds the metrics snapshot from one round of raw samples: memory as
/// read, disk and network counters summed by the rules above, rates
/// against the previous history point, and the sample appended to the
/// history.
pub fn compute_metrics(
    memory_used: u64,
    memory_total: u64,
    disks: &Vec<DiskSpace>,
    interfaces: &Vec<InterfaceCounters>,
    history: &mut NetworkHistory,
    now_ms: u64,
    timestamp: i64,
) -> (metrics: SystemMetrics)
    requires
        old(history).wf(),
    ensures
        final(history).wf(),
        metrics.memory_used == memory_used,
        metrics.memory_total == memory_total,
        metrics.disk_used == spec_disk_used(disks@),
        metrics.disk_total == spec_disk_total(disks@),
        metrics.network_rx_bytes == spec_net_rx(interfaces@),
        metrics.network_tx_bytes == spec_net_tx(interfaces@),
        metrics.timestamp == timestamp,
        old(history).spec_samples().len() == 0 ==> metrics.network_rx_rate == 0
            && metrics.network_tx_rate == 0,
        old(history).spec_samples().len() > 0 ==> metrics.network_rx_rate == spec_rates(
            old(history).spec_samples().last(),
            spec_net_rx(interfaces@) as u64,
            spec_net_tx(interfaces@) as u64,
            now_ms,
        ).0 && metrics.network_tx_rate == spec_rates(
            old(history).spec_samples().last(),
            spec_net_rx(interfaces@) as u64,
            spec_net_tx(interfaces@) as u64,
            now_ms,
        ).1,
        final(history).spec_samples().len() > 0,
        final(history).spec_samples().last() == (NetworkSample {
            rx_bytes: spec_net_rx(interfaces@) as u64,
            tx_bytes: spec_net_tx(interfaces@) as u64,
            at_ms: now_ms,
        }),
{
    let (disk_used, disk_total) = disk_totals(disks);
    let (rx_bytes, tx_bytes) = network_totals(interfaces);
    let (rx_rate, tx_rate) = match history.last_sample() {
        Some(prev) => network_rates(&prev, rx_bytes, tx_bytes, now_ms),
        None => (0, 0),
    };
    history.push_sample(NetworkSample { rx_bytes, tx_bytes, at_ms: now_ms });
    SystemMetrics {
        memory_used,
        memory_total,
        disk_used,
        disk_total,
        network_rx_bytes: rx_bytes,
        network_tx_bytes: tx_bytes,
        network_rx_rate: rx_rate,
        network_tx_rate: tx_rate,
        timestamp,
    }
}

} // verus!
