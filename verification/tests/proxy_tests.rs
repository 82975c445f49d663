use sentinel::proxy::ProxyServer;
use sentinel::relay::Direction;

#[test]
fn a_fresh_proxy_has_no_ceiling_and_zero_counters() {
    let proxy = ProxyServer::new("0.0.0.0:0".to_string(), "127.0.0.1:8080".to_string());
    assert_eq!(proxy.listen_addr, "0.0.0.0:0");
    assert_eq!(proxy.target_addr, "127.0.0.1:8080");
    assert!(proxy.pump.limiter.is_none());
    let stats = proxy.pump.stats.get_stats();
    assert_eq!(stats.bytes_sent, 0);
    assert_eq!(stats.total_connections, 0);
}

#[test]
fn a_rate_limit_in_megabits_becomes_a_byte_ceiling() {
    // 8 Mbit/s is 1 MiB/s: the first second's burst passes untouched.
    let mut proxy = ProxyServer::new("a".to_string(), "b".to_string()).with_rate_limit(8);
    assert!(proxy.pump.limiter.is_some());
    assert_eq!(proxy.pump.account_chunk(0, 1024 * 1024, Direction::EntryToExit), 0);
    let delay = proxy.pump.account_chunk(0, 1024 * 1024, Direction::EntryToExit);
    assert_eq!(delay, 1000);
}

#[test]
fn a_zero_rate_limit_leaves_the_proxy_unthrottled() {
    let proxy = ProxyServer::new("a".to_string(), "b".to_string()).with_rate_limit(0);
    assert!(proxy.pump.limiter.is_none());
}
