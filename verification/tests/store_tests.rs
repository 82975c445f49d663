use sentinel::store::{metrics_from_row, task_type_from_str, task_type_to_str, tasks_from_rows, MetricsRow, TaskRow};
use sentinel::types::{ProxyConfig, RelayConfig, TaskPayload, TaskType, TransportType};

#[test]
fn every_task_kind_round_trips_through_its_spelling() {
    let kinds = [
        TaskType::StartRelay,
        TaskType::StopRelay,
        TaskType::UpdateIptables,
        TaskType::ConfigureProxy,
        TaskType::UpdateConfig,
    ];
    for kind in kinds {
        let spelled = task_type_to_str(kind);
        assert_eq!(task_type_from_str(&spelled), Some(kind));
    }
}

#[test]
fn the_spellings_match_the_store_schema() {
    assert_eq!(task_type_to_str(TaskType::StartRelay), "start_relay");
    assert_eq!(task_type_to_str(TaskType::StopRelay), "stop_relay");
    assert_eq!(task_type_to_str(TaskType::UpdateIptables), "update_iptables");
    assert_eq!(task_type_to_str(TaskType::ConfigureProxy), "configure_proxy");
    assert_eq!(task_type_to_str(TaskType::UpdateConfig), "update_config");
    assert_eq!(task_type_from_str("reboot_moon_laser"), None);
    assert_eq!(task_type_from_str(""), None);
}

fn relay_payload(port: u16) -> TaskPayload {
    TaskPayload::Relay(RelayConfig {
        entry_point: format!("127.0.0.1:{port}"),
        exit_point: "127.0.0.1:9002".to_string(),
        transport_type: TransportType::Direct,
    })
}

#[test]
fn rows_become_tasks_in_order_and_bad_rows_are_dropped() {
    let rows = vec![
        TaskRow {
            id: "t1".to_string(),
            task_type: "start_relay".to_string(),
            payload: relay_payload(1),
            created_at: 10,
        },
        TaskRow {
            id: "t2".to_string(),
            task_type: "telepathy".to_string(),
            payload: relay_payload(2),
            created_at: 20,
        },
        TaskRow {
            id: "t3".to_string(),
            task_type: "stop_relay".to_string(),
            payload: relay_payload(3),
            created_at: 30,
        },
        // A known kind whose payload is of another shape is dropped too.
        TaskRow {
            id: "t4".to_string(),
            task_type: "configure_proxy".to_string(),
            payload: relay_payload(4),
            created_at: 40,
        },
        TaskRow {
            id: "t5".to_string(),
            task_type: "configure_proxy".to_string(),
            payload: TaskPayload::Proxy(ProxyConfig {
                listen_addr: "0.0.0.0:1".to_string(),
                target_addr: "127.0.0.1:2".to_string(),
                rate_limit: None,
                max_connections: None,
            }),
            created_at: 50,
        },
    ];

    let tasks = tasks_from_rows(rows);
    assert_eq!(tasks.len(), 3);
    assert_eq!(tasks[0].id, "t1");
    assert_eq!(tasks[0].task_type, TaskType::StartRelay);
    assert_eq!(tasks[1].id, "t3");
    assert_eq!(tasks[1].task_type, TaskType::StopRelay);
    assert_eq!(tasks[2].id, "t5");
    assert_eq!(tasks[2].task_type, TaskType::ConfigureProxy);
    assert_eq!(tasks[2].created_at, 50);
}

#[test]
fn latest_metrics_rebuild_only_from_written_rows() {
    let never_written = MetricsRow {
        has_usage: false,
        network_rx_rate: Some(10),
        network_tx_rate: Some(20),
    };
    assert!(metrics_from_row(never_written, 99).is_none());

    let written = MetricsRow {
        has_usage: true,
        network_rx_rate: Some(10),
        network_tx_rate: None,
    };
    let metrics = metrics_from_row(written, 99).unwrap();
    assert_eq!(metrics.network_rx_rate, 10);
    assert_eq!(metrics.network_tx_rate, 0);
    assert_eq!(metrics.timestamp, 99);
    assert_eq!(metrics.memory_used, 0);
}
