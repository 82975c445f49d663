use sentinel::api::{
    handle_apply_rule, handle_heartbeat, handle_list, handle_metrics_summary, handle_register,
    handle_relay_start, handle_relay_stop, ApiError,
};
use sentinel::protocol::{HeartbeatRequest, RegisterRequest};
use sentinel::registry::ClientManager;
use sentinel::types::{
    Action, ClientInfo, IptablesRule, RelayConfig, SystemInfo, SystemMetrics, TaskPayload,
    TaskType, TransportType,
};

fn agent(id: &str) -> ClientInfo {
    ClientInfo {
        id: id.to_string(),
        hostname: "host".to_string(),
        ip: "192.0.2.7".to_string(),
        version: "1.0.0".to_string(),
        capabilities: vec!["relay".to_string()],
        system_info: SystemInfo {
            os: "linux".to_string(),
            kernel_version: "6.1".to_string(),
            cpu_cores: 8,
            total_memory: 16_000_000_000,
            total_disk: 500_000_000_000,
        },
    }
}

fn heartbeat(id: &str, token: &str) -> HeartbeatRequest {
    HeartbeatRequest {
        client_id: id.to_string(),
        token: token.to_string(),
        metrics: None,
    }
}

#[test]
fn register_heartbeat_enqueue_heartbeat_end_to_end() {
    let mut manager = ClientManager::new();

    // The agent registers and the coordinator answers with a token.
    let response = handle_register(
        &mut manager,
        RegisterRequest { client_info: agent("a1") },
        100,
    );
    assert_eq!(response.token.len(), 36);
    let token = response.token;

    // A heartbeat with no metrics: status ok, no tasks yet.
    let answer = handle_heartbeat(&mut manager, heartbeat("a1", &token), 110).unwrap();
    assert_eq!(answer.status, "ok");
    assert!(answer.tasks.is_empty());

    // The operator queues a relay start for the agent.
    let config = RelayConfig {
        entry_point: "127.0.0.1:9001".to_string(),
        exit_point: "127.0.0.1:9002".to_string(),
        transport_type: TransportType::Direct,
    };
    handle_relay_start(&mut manager, &"a1".to_string(), config, 120).unwrap();

    // The next heartbeat returns exactly that one task with its payload.
    let answer = handle_heartbeat(&mut manager, heartbeat("a1", &token), 130).unwrap();
    assert_eq!(answer.tasks.len(), 1);
    let task = &answer.tasks[0];
    assert_eq!(task.task_type, TaskType::StartRelay);
    assert_eq!(task.created_at, 120);
    match &task.payload {
        TaskPayload::Relay(relay) => {
            assert_eq!(relay.entry_point, "127.0.0.1:9001");
            assert_eq!(relay.exit_point, "127.0.0.1:9002");
            assert_eq!(relay.transport_type, TransportType::Direct);
        }
        _ => panic!("a relay task must carry a relay payload"),
    }

    // And the one after that returns nothing again.
    let answer = handle_heartbeat(&mut manager, heartbeat("a1", &token), 140).unwrap();
    assert!(answer.tasks.is_empty());
}

#[test]
fn heartbeat_for_unknown_agent_or_wrong_token_is_refused() {
    let mut manager = ClientManager::new();
    let response = handle_register(
        &mut manager,
        RegisterRequest { client_info: agent("a1") },
        0,
    );
    assert!(matches!(
        handle_heartbeat(&mut manager, heartbeat("nobody", &response.token), 10),
        Err(ApiError::NotFound)
    ));
    assert!(matches!(
        handle_heartbeat(&mut manager, heartbeat("a1", "wrong"), 10),
        Err(ApiError::NotFound)
    ));
}

#[test]
fn heartbeat_stores_attached_metrics() {
    let mut manager = ClientManager::new();
    let response = handle_register(
        &mut manager,
        RegisterRequest { client_info: agent("a1") },
        0,
    );
    let mut request = heartbeat("a1", &response.token);
    request.metrics = Some(SystemMetrics {
        memory_used: 1,
        memory_total: 2,
        disk_used: 3,
        disk_total: 4,
        network_rx_bytes: 5,
        network_tx_bytes: 6,
        network_rx_rate: 7,
        network_tx_rate: 8,
        timestamp: 9,
    });
    assert!(handle_heartbeat(&mut manager, request, 10).is_ok());
}

#[test]
fn relay_stop_queues_a_stop_task_for_the_pair() {
    let mut manager = ClientManager::new();
    let response = handle_register(
        &mut manager,
        RegisterRequest { client_info: agent("a1") },
        0,
    );
    handle_relay_stop(
        &mut manager,
        &"a1".to_string(),
        "127.0.0.1:9001".to_string(),
        "127.0.0.1:9002".to_string(),
        5,
    )
    .unwrap();

    let answer = handle_heartbeat(&mut manager, heartbeat("a1", &response.token), 10).unwrap();
    assert_eq!(answer.tasks.len(), 1);
    assert_eq!(answer.tasks[0].task_type, TaskType::StopRelay);
}

#[test]
fn apply_rule_queues_a_batch_of_one() {
    let mut manager = ClientManager::new();
    let response = handle_register(
        &mut manager,
        RegisterRequest { client_info: agent("a1") },
        0,
    );
    let rule = IptablesRule {
        action: Action::Append,
        chain: "INPUT".to_string(),
        protocol: Some("tcp".to_string()),
        source: None,
        destination: None,
        dport: Some(22),
        sport: None,
        target: "ACCEPT".to_string(),
    };
    handle_apply_rule(&mut manager, &"a1".to_string(), rule, 5).unwrap();

    let answer = handle_heartbeat(&mut manager, heartbeat("a1", &response.token), 10).unwrap();
    assert_eq!(answer.tasks.len(), 1);
    assert_eq!(answer.tasks[0].task_type, TaskType::UpdateIptables);
    match &answer.tasks[0].payload {
        TaskPayload::Firewall(rules) => {
            assert_eq!(rules.len(), 1);
            assert_eq!(rules[0].chain, "INPUT");
            assert_eq!(rules[0].dport, Some(22));
        }
        _ => panic!("a firewall task must carry rules"),
    }
}

#[test]
fn list_and_summary_count_every_agent() {
    let mut manager = ClientManager::new();
    let _ = handle_register(&mut manager, RegisterRequest { client_info: agent("a1") }, 0);
    let _ = handle_register(&mut manager, RegisterRequest { client_info: agent("a2") }, 0);

    assert_eq!(handle_list(&manager).len(), 2);
    let summary = handle_metrics_summary(&manager);
    assert_eq!(summary.total_clients, 2);
    assert_eq!(summary.online_clients, 2);
    assert_eq!(summary.total_bandwidth_rx, 0);
    assert_eq!(summary.total_bandwidth_tx, 0);
}
