//! The agent's configuration: who to report to, what to proxy, and every
//! default the agent falls back to when its configuration file leaves a
//! setting out.
//!
//! Reading and parsing the file is process plumbing; the settings and
//! their defaults are fixed here.

use vstd::prelude::*;
use vstd::string::StringExecFns;

verus! {

/// The agent's own identity settings; either may be left for the agent to
/// fill in at startup.
#[derive(Debug, Clone)]
pub struct ClientConfig {
    /// The agent id; a fresh one is generated when absent.
    pub id: Option<String>,
    /// The hostname to report; read from the host when absent.
    pub hostname: Option<String>,
}

/// Where the coordinator is and how often to check in.
#[derive(Debug, Clone)]
pub struct ServerConfig {
    /// The coordinator's URL.
    pub url: String,
    /// A pre-provisioned token, if deployment supplies one.
    pub token: Option<String>,
    /// Seconds between heartbeats.
    pub heartbeat_interval: u64,
}

/// The local forwarding proxy's settings.
#[derive(Debug, Clone)]
pub struct ProxyConfig {
    pub listen_addr: String,
    pub target_addr: String,
    pub buffer_size: usize,
}

/// Which wrapping relays apply by default, with its key material.
#[derive(Debug, Clone)]
pub struct TransportConfig {
    pub transport_type: String,
    pub encryption_key: Option<String>,
}

/// Connection and throughput ceilings.
#[derive(Debug, Clone)]
pub struct LimitsConfig {
    pub max_connections: usize,
    pub rate_limit_mbps: u32,
}

/// Whether and how often the agent samples and reports host metrics.
#[derive(Debug, Clone)]
pub struct MonitoringConfig {
    pub enabled: bool,
    pub report_interval: u64,
    pub collect_interval: u64,
}

/// Where and how much the agent logs.
#[derive(Debug, Clone)]
pub struct LoggingConfig {
    pub level: String,
    pub file: Option<String>,
}

/// The agent's whole configuration.
#[derive(Debug, Clone)]
pub struct Config {
    pub client: ClientConfig,
    pub server: ServerConfig,
    pub proxy: ProxyConfig,
    pub transport: TransportConfig,
    pub limits: LimitsConfig,
    pub monitoring: MonitoringConfig,
    pub logging: LoggingConfig,
}

impl Default for Config {
    /// The defaults an absent setting falls back to: heartbeat every 30
    /// seconds, the proxy listening on an ephemeral local port and
    /// forwarding to port 8080, 8 KiB buffers, the direct transport, up
    /// to 1000 connections with no rate ceiling, monitoring on with a 30
    /// second report and 1 second collect interval, and logging at
    /// `info`. The coordinator URL has no default and starts empty.
    fn default() -> (config: Config)
        ensures
            config.client.id is None,
            config.client.hostname is None,
            config.server.url@ == Seq::<char>::empty(),
            config.server.token is None,
            config.server.heartbeat_interval == 30,
            config.proxy.listen_addr@ == "0.0.0.0:0"@,
            config.proxy.target_addr@ == "127.0.0.1:8080"@,
            config.proxy.buffer_size == 8192,
            config.transport.transport_type@ == "direct"@,
            config.transport.encryption_key is None,
            config.limits.max_connections == 1000,
            config.limits.rate_limit_mbps == 0,
            config.monitoring.enabled,
            config.monitoring.report_interval == 30,
            config.monitoring.collect_interval == 1,
            config.logging.level@ == "info"@,
            config.logging.file is None,
    {
        Config {
            client: ClientConfig { id: None, hostname: None },
            server: ServerConfig {
                url: String::new(),
                token: None,
                heartbeat_interval: 30,
            },
            proxy: ProxyConfig {
                listen_addr: <String as StringExecFns>::from_str("0.0.0.0:0"),
                target_addr: <String as StringExecFns>::from_str("127.0.0.1:8080"),
                buffer_size: 8192,
            },
            transport: TransportConfig {
                transport_type: <String as StringExecFns>::from_str("direct"),
                encryption_key: None,
            },
            limits: LimitsConfig { max_connections: 1000, rate_limit_mbps: 0 },
            monitoring: MonitoringConfig {
                enabled: true,
                report_interval: 30,
                collect_interval: 1,
            },
            logging: LoggingConfig {
                level: <String as StringExecFns>::from_str("info"),
                file: None,
            },
        }
    }
}

} // verus!
