use sentinel::protocol::RegisterResponse;
use sentinel::session::{task_action, RegistrationManager, SessionError, TaskAction};
use sentinel::types::{
    ClientInfo, RelayConfig, SystemInfo, Task, TaskPayload, TaskType, TransportType,
};

fn identity() -> ClientInfo {
    ClientInfo {
        id: "agent-7".to_string(),
        hostname: "box".to_string(),
        ip: "10.1.1.1".to_string(),
        version: "1.0.0".to_string(),
        capabilities: vec!["relay".to_string()],
        system_info: SystemInfo {
            os: "linux".to_string(),
            kernel_version: "6.1".to_string(),
            cpu_cores: 2,
            total_memory: 1,
            total_disk: 1,
        },
    }
}

#[test]
fn no_heartbeat_before_registration() {
    let session = RegistrationManager::new(identity());
    assert!(!session.has_token());
    assert_eq!(session.heartbeat_request(None).err(), Some(SessionError::NoToken));
    assert!(session.poll_request().is_none());
}

#[test]
fn the_issued_token_is_echoed_on_heartbeats() {
    let mut session = RegistrationManager::new(identity());
    let request = session.register_request();
    assert_eq!(request.client_info.id, "agent-7");

    session.on_register_response(RegisterResponse {
        client_id: String::new(),
        token: "issued-token".to_string(),
    });
    assert!(session.has_token());

    let heartbeat = session.heartbeat_request(None).unwrap();
    assert_eq!(heartbeat.client_id, "agent-7");
    assert_eq!(heartbeat.token, "issued-token");
    assert!(heartbeat.metrics.is_none());

    let poll = session.poll_request().unwrap();
    assert_eq!(poll.token, "issued-token");
}

#[test]
fn a_rejected_heartbeat_forces_re_registration() {
    let mut session = RegistrationManager::new(identity());
    session.on_register_response(RegisterResponse {
        client_id: String::new(),
        token: "t1".to_string(),
    });
    session.on_heartbeat_rejected();
    assert!(!session.has_token());
    assert!(session.poll_request().is_none());
}

#[test]
fn delivered_tasks_dispatch_by_kind() {
    let relay = RelayConfig {
        entry_point: "127.0.0.1:9001".to_string(),
        exit_point: "127.0.0.1:9002".to_string(),
        transport_type: TransportType::WebSocket,
    };
    let task = Task {
        id: "t".to_string(),
        task_type: TaskType::StartRelay,
        payload: TaskPayload::Relay(relay),
        created_at: 0,
    };
    match task_action(task) {
        TaskAction::StartRelay(config) => {
            assert_eq!(config.entry_point, "127.0.0.1:9001");
            assert_eq!(config.transport_type, TransportType::WebSocket);
        }
        _ => panic!("a start-relay task must start a relay"),
    }

    let task = Task {
        id: "t".to_string(),
        task_type: TaskType::UpdateConfig,
        payload: TaskPayload::Text("new settings".to_string()),
        created_at: 0,
    };
    match task_action(task) {
        TaskAction::UpdateConfig(text) => assert_eq!(text, "new settings"),
        _ => panic!("an update-config task must update the config"),
    }
}
