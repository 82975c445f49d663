//! The coordinator's configuration, and every default an absent setting
//! falls back to.
//!
//! Reading and parsing the file is process plumbing; the settings and
//! their defaults are fixed here.

use vstd::prelude::*;
use vstd::string::StringExecFns;

verus! {

/// Where the coordinator listens and with how many workers.
#[derive(Debug, Clone)]
pub struct ServerConfig {
    pub bind_addr: String,
    pub workers: usize,
}

/// The durable store's location and pool bounds.
#[derive(Debug, Clone)]
pub struct DatabaseConfig {
    pub url: String,
    pub max_connections: u32,
    pub min_connections: u32,
}

/// Token-signing material and lifetime.
#[derive(Debug, Clone)]
pub struct SecurityConfig {
    pub jwt_secret: String,
    pub token_expiry: u64,
}

/// The liveness state machine's timing: how long an agent may stay silent
/// and how often the sweep runs.
#[derive(Debug, Clone)]
pub struct ClientManagementConfig {
    pub heartbeat_timeout: u64,
    pub cleanup_interval: u64,
}

/// The RPC surface's ceilings.
#[derive(Debug, Clone)]
pub struct ApiConfig {
    pub rate_limit: u32,
    pub max_request_size: String,
}

/// Where and how much the coordinator logs.
#[derive(Debug, Clone)]
pub struct LoggingConfig {
    pub level: String,
    pub file: Option<String>,
}

/// The coordinator's whole configuration.
#[derive(Debug, Clone)]
pub struct Config {
    pub server: ServerConfig,
    pub database: DatabaseConfig,
    pub security: SecurityConfig,
    pub client_management: ClientManagementConfig,
    pub api: ApiConfig,
    pub logging: LoggingConfig,
}

impl Default for Config {
    /// The defaults an absent setting falls back to: listening on port
    /// 8080 on every interface with 4 workers, a store pool of 1 to 10
    /// connections, hour-long tokens, a 120 second heartbeat timeout
    /// swept every 60 seconds, 100 calls per second with requests up to
    /// 10 MB, and logging at `info`. The store URL and signing secret
    /// have no default and start empty.
    fn default() -> (config: Config)
        ensures
            config.server.bind_addr@ == "0.0.0.0:8080"@,
            config.server.workers == 4,
            config.database.url@ == Seq::<char>::empty(),
            config.database.max_connections == 10,
            config.database.min_connections == 1,
            config.security.jwt_secret@ == Seq::<char>::empty(),
            config.security.token_expiry == 3600,
            config.client_management.heartbeat_timeout == 120,
            config.client_management.cleanup_interval == 60,
            config.api.rate_limit == 100,
            config.api.max_request_size@ == "10MB"@,
            config.logging.level@ == "info"@,
            config.logging.file is None,
    {
        Config {
            server: ServerConfig {
                bind_addr: <String as StringExecFns>::from_str("0.0.0.0:8080"),
                workers: 4,
            },
            database: DatabaseConfig { url: String::new(), max_connections: 10, min_connections: 1 },
            security: SecurityConfig { jwt_secret: String::new(), token_expiry: 3600 },
            client_management: ClientManagementConfig {
                heartbeat_timeout: 120,
                cleanup_interval: 60,
            },
            api: ApiConfig {
                rate_limit: 100,
                max_request_size: <String as StringExecFns>::from_str("10MB"),
            },
            logging: LoggingConfig {
                level: <String as StringExecFns>::from_str("info"),
                file: None,
            },
        }
    }
}

} // verus!
