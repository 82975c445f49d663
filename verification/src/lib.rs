//! Core of a fleet-coordination and traffic-relay system.
//!
//! A central coordinator tracks which remote agents are alive, queues work
//! items for them, and hands the work out when an agent checks in. Agents
//! relay traffic between an entry point and an exit point over a choice of
//! transports, throttled by a token-bucket rate limiter and measured by
//! per-connection statistics.

pub mod api;
pub mod cipher;
pub mod client_config;
pub mod crypto;
pub mod encryption;
pub mod iptables;
pub mod kvmap;
pub mod limiter;
pub mod monitor;
pub mod protocol;
pub mod proxy;
pub mod registry;
pub mod relay;
pub mod server_config;
pub mod session;
pub mod stats;
pub mod store;
pub mod strutil;
pub mod types;
pub mod websocket;
