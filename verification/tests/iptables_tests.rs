use sentinel::iptables::{
    port_string, rule_args, skip_header_lines, IptablesError, IptablesManager,
};
use sentinel::types::{Action, IptablesRule, Task, TaskPayload, TaskType, ProxyConfig};

fn full_rule() -> IptablesRule {
    IptablesRule {
        action: Action::Insert,
        chain: "INPUT".to_string(),
        protocol: Some("tcp".to_string()),
        source: Some("192.0.2.0/24".to_string()),
        destination: Some("198.51.100.7".to_string()),
        dport: Some(443),
        sport: Some(1024),
        target: "ACCEPT".to_string(),
    }
}

#[test]
fn a_full_rule_spells_every_argument_in_order() {
    let args = rule_args(&full_rule());
    assert_eq!(
        args,
        vec![
            "-I", "INPUT", "-p", "tcp", "-s", "192.0.2.0/24", "-d", "198.51.100.7", "--dport",
            "443", "--sport", "1024", "-j", "ACCEPT",
        ]
    );
}

#[test]
fn a_minimal_rule_spells_only_action_chain_and_target() {
    let rule = IptablesRule {
        action: Action::Delete,
        chain: "OUTPUT".to_string(),
        protocol: None,
        source: None,
        destination: None,
        dport: None,
        sport: None,
        target: "DROP".to_string(),
    };
    assert_eq!(rule_args(&rule), vec!["-D", "OUTPUT", "-j", "DROP"]);

    let rule = IptablesRule { action: Action::Append, ..rule };
    assert_eq!(rule_args(&rule), vec!["-A", "OUTPUT", "-j", "DROP"]);
}

#[test]
fn ports_are_spelled_in_decimal() {
    assert_eq!(port_string(0), "0");
    assert_eq!(port_string(7), "7");
    assert_eq!(port_string(80), "80");
    assert_eq!(port_string(443), "443");
    assert_eq!(port_string(65535), "65535");
}

#[test]
fn firewall_tasks_yield_their_rules_and_others_are_refused() {
    let manager = IptablesManager::new();

    let task = Task {
        id: "t1".to_string(),
        task_type: TaskType::UpdateIptables,
        payload: TaskPayload::Firewall(vec![full_rule()]),
        created_at: 0,
    };
    let rules = manager.rules_of_task(task).unwrap();
    assert_eq!(rules.len(), 1);
    assert_eq!(rules[0].chain, "INPUT");

    let wrong_kind = Task {
        id: "t2".to_string(),
        task_type: TaskType::ConfigureProxy,
        payload: TaskPayload::Proxy(ProxyConfig {
            listen_addr: "0.0.0.0:1".to_string(),
            target_addr: "127.0.0.1:2".to_string(),
            rate_limit: None,
            max_connections: None,
        }),
        created_at: 0,
    };
    assert_eq!(
        manager.rules_of_task(wrong_kind).err(),
        Some(IptablesError::InvalidTaskType)
    );

    let wrong_payload = Task {
        id: "t3".to_string(),
        task_type: TaskType::UpdateIptables,
        payload: TaskPayload::Text("not rules".to_string()),
        created_at: 0,
    };
    assert_eq!(
        manager.rules_of_task(wrong_payload).err(),
        Some(IptablesError::InvalidPayload)
    );
}

#[test]
fn applied_rules_are_recorded_until_cleared() {
    let mut manager = IptablesManager::new();
    manager.record_applied("rule one".to_string());
    manager.record_applied("rule two".to_string());
    assert_eq!(
        manager.get_applied_rules(),
        vec!["rule one".to_string(), "rule two".to_string()]
    );
    manager.clear_applied_rules_history();
    assert!(manager.get_applied_rules().is_empty());
}

#[test]
fn rule_listings_lose_their_two_header_lines() {
    let lines = vec![
        "Chain INPUT (policy ACCEPT)".to_string(),
        "num  target  prot".to_string(),
        "1    ACCEPT  tcp".to_string(),
        "2    DROP    udp".to_string(),
    ];
    assert_eq!(
        skip_header_lines(lines),
        vec!["1    ACCEPT  tcp".to_string(), "2    DROP    udp".to_string()]
    );
    assert!(skip_header_lines(vec!["only one line".to_string()]).is_empty());
    assert!(skip_header_lines(Vec::new()).is_empty());
}
