use sentinel::relay::{
    connect_plan, relay_id, should_listen, ConnectPlan, Direction, RelayManager, TrafficPump,
};
use sentinel::types::{RelayConfig, TransportType};

fn config(entry: &str, exit: &str, transport: TransportType) -> RelayConfig {
    RelayConfig {
        entry_point: entry.to_string(),
        exit_point: exit.to_string(),
        transport_type: transport,
    }
}

#[test]
fn two_distinct_pairs_run_independently() {
    let mut manager = RelayManager::new();
    assert!(manager.start_relay(config("127.0.0.1:9001", "127.0.0.1:9002", TransportType::Direct)));
    assert!(manager.start_relay(config("127.0.0.1:9003", "127.0.0.1:9004", TransportType::Direct)));

    assert!(manager.is_active(&"127.0.0.1:9001".to_string(), &"127.0.0.1:9002".to_string()));
    assert!(manager.is_active(&"127.0.0.1:9003".to_string(), &"127.0.0.1:9004".to_string()));
    assert_eq!(manager.list_active_relays().len(), 2);
}

#[test]
fn starting_an_active_pair_is_an_idempotent_no_op() {
    let mut manager = RelayManager::new();
    assert!(manager.start_relay(config("127.0.0.1:9001", "127.0.0.1:9002", TransportType::Direct)));
    // The same pair again: no new job, exactly one stays active.
    assert!(!manager.start_relay(config(
        "127.0.0.1:9001",
        "127.0.0.1:9002",
        TransportType::Encrypted
    )));
    assert_eq!(manager.list_active_relays().len(), 1);
}

#[test]
fn stopping_removes_the_bookkeeping_entry() {
    let mut manager = RelayManager::new();
    let _ = manager.start_relay(config("127.0.0.1:9001", "127.0.0.1:9002", TransportType::Direct));
    manager.stop_relay(&"127.0.0.1:9001".to_string(), &"127.0.0.1:9002".to_string());
    assert!(!manager.is_active(&"127.0.0.1:9001".to_string(), &"127.0.0.1:9002".to_string()));
    assert!(manager.list_active_relays().is_empty());

    // Stopping a pair that is not active changes nothing.
    manager.stop_relay(&"127.0.0.1:9001".to_string(), &"127.0.0.1:9002".to_string());
    assert!(manager.list_active_relays().is_empty());
}

#[test]
fn relay_ids_join_the_pair_with_a_colon() {
    let id = relay_id(&"127.0.0.1:9001".to_string(), &"127.0.0.1:9002".to_string());
    assert_eq!(id, "127.0.0.1:9001:127.0.0.1:9002");
}

#[test]
fn only_local_bind_addresses_listen() {
    assert!(should_listen(&"0.0.0.0:9001".to_string()));
    assert!(should_listen(&"127.0.0.1:9001".to_string()));
    assert!(!should_listen(&"example.com:9001".to_string()));
    assert!(!should_listen(&"".to_string()));
}

#[test]
fn connect_plans_follow_the_transport_kind() {
    let plan = connect_plan(&config("e", "127.0.0.1:9002", TransportType::Direct));
    assert!(matches!(plan, ConnectPlan::Direct { addr } if addr == "127.0.0.1:9002"));

    let plan = connect_plan(&config("e", "127.0.0.1:9002", TransportType::Encrypted));
    assert!(matches!(plan, ConnectPlan::Encrypted { addr } if addr == "127.0.0.1:9002"));

    let plan = connect_plan(&config("e", "127.0.0.1:9002", TransportType::WebSocket));
    match plan {
        ConnectPlan::WebSocket { url, tcp_addr } => {
            assert_eq!(url, "ws://127.0.0.1:9002/relay");
            assert_eq!(tcp_addr, "127.0.0.1:9002");
        }
        _ => panic!("a WebSocket transport must yield a WebSocket plan"),
    }
}

#[test]
fn websocket_urls_pass_through_and_yield_their_host() {
    let plan = connect_plan(&config("e", "wss://relay.example.com/path", TransportType::WebSocket));
    match plan {
        ConnectPlan::WebSocket { url, tcp_addr } => {
            assert_eq!(url, "wss://relay.example.com/path");
            assert_eq!(tcp_addr, "relay.example.com");
        }
        _ => panic!("a WebSocket transport must yield a WebSocket plan"),
    }
}

#[test]
fn the_pump_counts_each_direction_as_it_flows() {
    let mut pump = TrafficPump::new(0);
    assert_eq!(pump.account_chunk(0, 8192, Direction::EntryToExit), 0);
    assert_eq!(pump.account_chunk(0, 100, Direction::ExitToEntry), 0);
    assert_eq!(pump.account_chunk(0, 8, Direction::EntryToExit), 0);
    let stats = pump.stats.get_stats();
    assert_eq!(stats.bytes_sent, 8200);
    assert_eq!(stats.bytes_received, 100);
}

#[test]
fn the_pump_delays_writes_beyond_the_ceiling() {
    let mut pump = TrafficPump::new(1024);
    // The one-second burst covers the first permit.
    assert_eq!(pump.account_chunk(0, 1024, Direction::EntryToExit), 0);
    // The next chunk must wait a full second of refill.
    let delay = pump.account_chunk(0, 1024, Direction::EntryToExit);
    assert_eq!(delay, 1000);
    let stats = pump.stats.get_stats();
    assert_eq!(stats.bytes_sent, 2048);
}
