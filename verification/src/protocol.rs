//! The registration and heartbeat exchange between agent and coordinator.
//!
//! The exchange is stateless per call: an agent registers and receives a
//! bearer token, then echoes the token on every heartbeat. A heartbeat may
//! carry a metrics snapshot and returns the agent's pending tasks.

use vstd::prelude::*;
use crate::types::{ClientInfo, SystemMetrics, Task};

verus! {

/// An agent asks to join the fleet.
#[derive(Debug, Clone)]
pub struct RegisterRequest {
    pub client_info: ClientInfo,
}

/// The coordinator's answer to a registration: the agent's id and the
/// bearer token to echo on heartbeats.
#[derive(Debug, Clone)]
pub struct RegisterResponse {
    pub client_id: String,
    pub token: String,
}

/// A periodic liveness check-in, carrying the bearer token and optionally a
/// metrics snapshot.
#[derive(Debug, Clone)]
pub struct HeartbeatRequest {
    pub client_id: String,
    pub token: String,
    pub metrics: Option<SystemMetrics>,
}

/// The coordinator's answer to a heartbeat: a status word and the tasks that
/// were pending for the agent, delivered at most once.
#[derive(Debug, Clone)]
pub struct HeartbeatResponse {
    pub status: String,
    pub tasks: Vec<Task>,
}

/// What became of one task an agent executed.
#[derive(Debug, Clone)]
pub struct TaskResult {
    pub task_id: String,
    pub success: bool,
    pub message: String,
    pub data: Option<String>,
}

/// Fleet-wide aggregates for an operator's overview.
#[derive(Debug, Clone)]
pub struct MetricsSummary {
    pub total_clients: u32,
    pub online_clients: u32,
    pub total_bandwidth_rx: u64,
    pub total_bandwidth_tx: u64,
}

} // verus!
