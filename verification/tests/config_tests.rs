#[test]
fn client_defaults_match_the_documented_fallbacks() {
    let config = sentinel::client_config::Config::default();
    assert!(config.client.id.is_none());
    assert!(config.client.hostname.is_none());
    assert_eq!(config.server.url, "");
    assert!(config.server.token.is_none());
    assert_eq!(config.server.heartbeat_interval, 30);
    assert_eq!(config.proxy.listen_addr, "0.0.0.0:0");
    assert_eq!(config.proxy.target_addr, "127.0.0.1:8080");
    assert_eq!(config.proxy.buffer_size, 8192);
    assert_eq!(config.transport.transport_type, "direct");
    assert!(config.transport.encryption_key.is_none());
    assert_eq!(config.limits.max_connections, 1000);
    assert_eq!(config.limits.rate_limit_mbps, 0);
    assert!(config.monitoring.enabled);
    assert_eq!(config.monitoring.report_interval, 30);
    assert_eq!(config.monitoring.collect_interval, 1);
    assert_eq!(config.logging.level, "info");
    assert!(config.logging.file.is_none());
}

#[test]
fn server_defaults_match_the_documented_fallbacks() {
    let config = sentinel::server_config::Config::default();
    assert_eq!(config.server.bind_addr, "0.0.0.0:8080");
    assert_eq!(config.server.workers, 4);
    assert_eq!(config.database.url, "");
    assert_eq!(config.database.max_connections, 10);
    assert_eq!(config.database.min_connections, 1);
    assert_eq!(config.security.jwt_secret, "");
    assert_eq!(config.security.token_expiry, 3600);
    assert_eq!(config.client_management.heartbeat_timeout, 120);
    assert_eq!(config.client_management.cleanup_interval, 60);
    assert_eq!(config.api.rate_limit, 100);
    assert_eq!(config.api.max_request_size, "10MB");
    assert_eq!(config.logging.level, "info");
    assert!(config.logging.file.is_none());
}

#[test]
fn the_encryption_manager_constructs() {
    let _manager = sentinel::encryption::EncryptionManager::new();
    let config = sentinel::encryption::EncryptionConfig::default();
    assert!(config.key.is_none());
    assert!(config.tls_config.is_none());
}
