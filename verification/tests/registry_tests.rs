use sentinel::registry::{ClientManager, RegistryError};
use sentinel::types::{
    ClientInfo, ClientStatus, RelayConfig, SystemInfo, TaskPayload, TaskType, TransportType,
};

fn agent(id: &str) -> ClientInfo {
    ClientInfo {
        id: id.to_string(),
        hostname: format!("{id}-host"),
        ip: "10.0.0.1".to_string(),
        version: "1.0.0".to_string(),
        capabilities: vec!["relay".to_string(), "monitoring".to_string()],
        system_info: SystemInfo {
            os: "linux".to_string(),
            kernel_version: "6.1".to_string(),
            cpu_cores: 4,
            total_memory: 8_000_000_000,
            total_disk: 100_000_000_000,
        },
    }
}

fn relay_config() -> RelayConfig {
    RelayConfig {
        entry_point: "127.0.0.1:9001".to_string(),
        exit_point: "127.0.0.1:9002".to_string(),
        transport_type: TransportType::Direct,
    }
}

#[test]
fn heartbeat_with_issued_token_succeeds_and_wrong_token_fails() {
    let mut manager = ClientManager::new();
    let token = manager.register_client(agent("a1"), 100);
    let id = "a1".to_string();

    assert!(manager.update_heartbeat(&id, &token, 110).is_ok());
    assert_eq!(
        manager.update_heartbeat(&id, &"not-the-token".to_string(), 111),
        Err(RegistryError::NotFound)
    );
    assert_eq!(
        manager.update_heartbeat(&"unknown".to_string(), &token, 112),
        Err(RegistryError::NotFound)
    );
}

#[test]
fn re_registration_invalidates_the_old_token() {
    let mut manager = ClientManager::new();
    let first_token = manager.register_client(agent("a1"), 100);
    let second_token = manager.register_client(agent("a1"), 200);
    let id = "a1".to_string();

    assert_ne!(first_token, second_token);
    assert_eq!(
        manager.update_heartbeat(&id, &first_token, 210),
        Err(RegistryError::NotFound)
    );
    assert!(manager.update_heartbeat(&id, &second_token, 210).is_ok());
}

#[test]
fn sweep_marks_exactly_the_stale_agent_offline() {
    let mut manager = ClientManager::new();
    let stale_token = manager.register_client(agent("stale"), 0);
    let _ = stale_token;
    let fresh_token = manager.register_client(agent("fresh"), 0);
    let fresh = "fresh".to_string();
    let stale = "stale".to_string();

    // The fresh agent heartbeats at t=100; the stale one stays silent.
    assert!(manager.update_heartbeat(&fresh, &fresh_token, 100).is_ok());

    // At t=130 with a 120 s timeout the stale agent exceeds the timeout
    // (130 - 0 > 120) and the fresh one does not (130 - 100 <= 120).
    manager.cleanup_inactive_clients(130, 120);

    assert!(matches!(
        manager.client_status(&stale),
        Some(ClientStatus::Offline)
    ));
    assert!(matches!(
        manager.client_status(&fresh),
        Some(ClientStatus::Online)
    ));
    // The sweep never removes a record.
    assert_eq!(manager.list_clients().len(), 2);
}

#[test]
fn an_offline_agent_comes_back_online_with_a_heartbeat() {
    let mut manager = ClientManager::new();
    let token = manager.register_client(agent("a1"), 0);
    let id = "a1".to_string();

    manager.cleanup_inactive_clients(1000, 120);
    assert!(matches!(
        manager.client_status(&id),
        Some(ClientStatus::Offline)
    ));

    assert!(manager.update_heartbeat(&id, &token, 1001).is_ok());
    assert!(matches!(
        manager.client_status(&id),
        Some(ClientStatus::Online)
    ));
}

#[test]
fn tasks_are_delivered_in_creation_order_and_only_once() {
    let mut manager = ClientManager::new();
    let _token = manager.register_client(agent("a1"), 0);
    let id = "a1".to_string();

    let first = RelayConfig {
        entry_point: "127.0.0.1:7001".to_string(),
        exit_point: "127.0.0.1:8001".to_string(),
        transport_type: TransportType::Direct,
    };
    let second = RelayConfig {
        entry_point: "127.0.0.1:7002".to_string(),
        exit_point: "127.0.0.1:8002".to_string(),
        transport_type: TransportType::Encrypted,
    };
    manager.create_relay_task(&id, first, 10).unwrap();
    manager.create_relay_task(&id, second, 20).unwrap();

    let tasks = manager.get_pending_tasks(&id);
    assert_eq!(tasks.len(), 2);
    assert_eq!(tasks[0].created_at, 10);
    assert_eq!(tasks[1].created_at, 20);
    match (&tasks[0].payload, &tasks[1].payload) {
        (TaskPayload::Relay(a), TaskPayload::Relay(b)) => {
            assert_eq!(a.entry_point, "127.0.0.1:7001");
            assert_eq!(b.entry_point, "127.0.0.1:7002");
        }
        _ => panic!("relay tasks must carry relay payloads"),
    }

    // A second poll returns nothing: the queue was drained.
    assert!(manager.get_pending_tasks(&id).is_empty());
}

#[test]
fn tasks_survive_re_registration() {
    let mut manager = ClientManager::new();
    let _ = manager.register_client(agent("a1"), 0);
    let id = "a1".to_string();
    manager.create_relay_task(&id, relay_config(), 5).unwrap();

    let _ = manager.register_client(agent("a1"), 50);
    let tasks = manager.get_pending_tasks(&id);
    assert_eq!(tasks.len(), 1);
    assert_eq!(tasks[0].task_type, TaskType::StartRelay);
}

#[test]
fn enqueue_for_an_unknown_agent_fails() {
    let mut manager = ClientManager::new();
    assert_eq!(
        manager.create_relay_task(&"ghost".to_string(), relay_config(), 1),
        Err(RegistryError::NotFound)
    );
    assert_eq!(
        manager.create_iptables_task(&"ghost".to_string(), Vec::new(), 1),
        Err(RegistryError::NotFound)
    );
}

#[test]
fn list_clients_snapshots_all_agents_whatever_their_status() {
    let mut manager = ClientManager::new();
    let _ = manager.register_client(agent("a1"), 0);
    let _ = manager.register_client(agent("a2"), 0);
    manager.cleanup_inactive_clients(1000, 120);

    let infos = manager.list_clients();
    assert_eq!(infos.len(), 2);
    let mut ids: Vec<String> = infos.iter().map(|info| info.id.clone()).collect();
    ids.sort();
    assert_eq!(ids, vec!["a1".to_string(), "a2".to_string()]);
}
