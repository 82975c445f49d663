//! Shared data model: agent identity, system snapshots, tasks and their
//! payloads, firewall rules, and relay descriptors.
//!
//! Times are carried as plain integers — seconds since the epoch for
//! wall-clock stamps — so that every rule about them is a function of the
//! values alone and the caller owns the clock.

use vstd::prelude::*;

verus! {

/// Identity an agent presents at registration: who it is, where it runs,
/// and what it can do.
#[derive(Debug, Clone)]
pub struct ClientInfo {
    /// Unique agent identifier.
    pub id: String,
    /// Agent hostname for identification.
    pub hostname: String,
    /// Agent IP address.
    pub ip: String,
    /// Agent software version.
    pub version: String,
    /// Declared capability tags (proxy, iptables, relay, monitoring).
    pub capabilities: Vec<String>,
    /// Static system snapshot collected at startup.
    pub system_info: SystemInfo,
}

/// Static system information collected once at agent startup.
#[derive(Debug, Clone)]
pub struct SystemInfo {
    /// Operating system name and version.
    pub os: String,
    /// Kernel version string.
    pub kernel_version: String,
    /// Number of CPU cores available.
    pub cpu_cores: usize,
    /// Total system memory in bytes.
    pub total_memory: u64,
    /// Total disk space in bytes.
    pub total_disk: u64,
}

/// A live metrics snapshot an agent reports with a heartbeat. Usage ratios
/// are not stored: they are derived from the used and total counters by
/// whoever displays them.
#[derive(Debug, Clone)]
pub struct SystemMetrics {
    pub memory_used: u64,
    pub memory_total: u64,
    pub disk_used: u64,
    pub disk_total: u64,
    pub network_rx_bytes: u64,
    pub network_tx_bytes: u64,
    pub network_rx_rate: u64,
    pub network_tx_rate: u64,
    /// Seconds since the epoch when the snapshot was taken.
    pub timestamp: i64,
}

/// A copy of a static system snapshot, field by field.
pub fn clone_system_info(info: &SystemInfo) -> (copy: SystemInfo)
    ensures
        copy == *info,
{
    let copy = SystemInfo {
        os: info.os.clone(),
        kernel_version: info.kernel_version.clone(),
        cpu_cores: info.cpu_cores,
        total_memory: info.total_memory,
        total_disk: info.total_disk,
    };
    proof {
        assert(copy == *info);
    }
    copy
}

/// The kinds of work the coordinator can hand to an agent.
#[derive(Debug, Clone, Copy, PartialEq, Eq, Structural)]
pub enum TaskType {
    UpdateIptables,
    ConfigureProxy,
    StartRelay,
    StopRelay,
    UpdateConfig,
}

/// The typed payload a task carries; which variant is legal depends on the
/// task's kind.
#[derive(Debug, Clone)]
pub enum TaskPayload {
    /// Relay descriptor, for starting or stopping a relay.
    Relay(RelayConfig),
    /// A batch of firewall rules to apply.
    Firewall(Vec<IptablesRule>),
    /// A proxy reconfiguration.
    Proxy(ProxyConfig),
    /// An opaque configuration blob.
    Text(String),
}

/// An immutable unit of work, owned by the queue until delivered.
#[derive(Debug, Clone)]
pub struct Task {
    /// Unique, coordinator-assigned identifier.
    pub id: String,
    /// What the work is.
    pub task_type: TaskType,
    /// The typed payload matching `task_type`.
    pub payload: TaskPayload,
    /// Seconds since the epoch when the task was created.
    pub created_at: i64,
}

/// The payload variant a task of each kind must carry.
pub open spec fn payload_matches_kind(task_type: TaskType, payload: TaskPayload) -> bool {
    match task_type {
        TaskType::StartRelay | TaskType::StopRelay => payload is Relay,
        TaskType::UpdateIptables => payload is Firewall,
        TaskType::ConfigureProxy => payload is Proxy,
        TaskType::UpdateConfig => payload is Text,
    }
}

impl Task {
    /// A task is well formed when its payload matches its kind.
    pub open spec fn wf(self) -> bool {
        payload_matches_kind(self.task_type, self.payload)
    }
}

/// What to do with a firewall rule.
#[derive(Debug, Clone, Copy, PartialEq, Eq, Structural)]
pub enum Action {
    Insert,
    Append,
    Delete,
}

/// One firewall rule: an action on a chain with optional match criteria and
/// a jump target.
#[derive(Debug, Clone)]
pub struct IptablesRule {
    pub action: Action,
    pub chain: String,
    pub protocol: Option<String>,
    pub source: Option<String>,
    pub destination: Option<String>,
    pub dport: Option<u16>,
    pub sport: Option<u16>,
    pub target: String,
}

/// Settings for the local forwarding proxy.
#[derive(Debug, Clone)]
pub struct ProxyConfig {
    pub listen_addr: String,
    pub target_addr: String,
    pub rate_limit: Option<u32>,
    pub max_connections: Option<u32>,
}

/// The wire-level wrapping applied to a relay's outbound leg.
#[derive(Debug, Clone, Copy, PartialEq, Eq, Structural)]
pub enum TransportType {
    Direct,
    Encrypted,
    WebSocket,
}

/// A relay descriptor: listen here, connect out there, wrapped like this.
/// Its identity for bookkeeping is the (entry_point, exit_point) pair.
#[derive(Debug, Clone)]
pub struct RelayConfig {
    pub entry_point: String,
    pub exit_point: String,
    pub transport_type: TransportType,
}

/// Liveness of an agent as the coordinator sees it.
#[derive(Debug, Clone)]
pub enum ClientStatus {
    Online,
    Offline,
    Error(String),
}

impl ClientStatus {
    /// Whether this status is `Online`.
    pub fn is_online(&self) -> (online: bool)
        ensures
            online == (self is Online),
    {
        match self {
            ClientStatus::Online => true,
            _ => false,
        }
    }
}

} // verus!
