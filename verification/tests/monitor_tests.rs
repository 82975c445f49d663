use sentinel::monitor::{
    compute_metrics, disk_totals, network_rates, network_totals, DiskSpace, InterfaceCounters,
    NetworkHistory, NetworkSample,
};

#[test]
fn disk_space_sums_over_all_disks() {
    let disks = vec![
        DiskSpace { total: 1000, available: 400 },
        DiskSpace { total: 500, available: 500 },
    ];
    let (used, total) = disk_totals(&disks);
    assert_eq!(used, 600);
    assert_eq!(total, 1500);

    let (used, total) = disk_totals(&Vec::new());
    assert_eq!(used, 0);
    assert_eq!(total, 0);
}

#[test]
fn network_totals_skip_loopback_interfaces() {
    let interfaces = vec![
        InterfaceCounters { name: "eth0".to_string(), rx_bytes: 100, tx_bytes: 10 },
        InterfaceCounters { name: "lo".to_string(), rx_bytes: 9999, tx_bytes: 9999 },
        InterfaceCounters { name: "lo0".to_string(), rx_bytes: 1111, tx_bytes: 1111 },
        InterfaceCounters { name: "wlan0".to_string(), rx_bytes: 200, tx_bytes: 20 },
    ];
    let (rx, tx) = network_totals(&interfaces);
    assert_eq!(rx, 300);
    assert_eq!(tx, 30);
}

#[test]
fn rates_are_bytes_per_whole_elapsed_second() {
    let prev = NetworkSample { rx_bytes: 1000, tx_bytes: 500, at_ms: 0 };
    let (rx_rate, tx_rate) = network_rates(&prev, 5000, 2500, 2000);
    assert_eq!(rx_rate, 2000);
    assert_eq!(tx_rate, 1000);

    // Less than a whole second: no rate yet.
    let (rx_rate, tx_rate) = network_rates(&prev, 5000, 2500, 900);
    assert_eq!(rx_rate, 0);
    assert_eq!(tx_rate, 0);

    // Counters that went backwards saturate to zero.
    let (rx_rate, _) = network_rates(&prev, 100, 2500, 2000);
    assert_eq!(rx_rate, 0);
}

#[test]
fn the_history_drops_its_oldest_sample_when_full() {
    let mut history = NetworkHistory::new(2);
    history.push_sample(NetworkSample { rx_bytes: 1, tx_bytes: 1, at_ms: 1 });
    history.push_sample(NetworkSample { rx_bytes: 2, tx_bytes: 2, at_ms: 2 });
    history.push_sample(NetworkSample { rx_bytes: 3, tx_bytes: 3, at_ms: 3 });
    let last = history.last_sample().unwrap();
    assert_eq!(last.at_ms, 3);
}

#[test]
fn compute_metrics_assembles_one_round_of_samples() {
    let disks = vec![DiskSpace { total: 1000, available: 250 }];
    let interfaces = vec![
        InterfaceCounters { name: "eth0".to_string(), rx_bytes: 4000, tx_bytes: 2000 },
        InterfaceCounters { name: "lo".to_string(), rx_bytes: 1, tx_bytes: 1 },
    ];
    let mut history = NetworkHistory::new(60);

    // The first round has no previous sample: rates are zero.
    let metrics = compute_metrics(800, 1600, &disks, &interfaces, &mut history, 1000, 42);
    assert_eq!(metrics.memory_used, 800);
    assert_eq!(metrics.memory_total, 1600);
    assert_eq!(metrics.disk_used, 750);
    assert_eq!(metrics.disk_total, 1000);
    assert_eq!(metrics.network_rx_bytes, 4000);
    assert_eq!(metrics.network_tx_bytes, 2000);
    assert_eq!(metrics.network_rx_rate, 0);
    assert_eq!(metrics.network_tx_rate, 0);
    assert_eq!(metrics.timestamp, 42);

    // Two seconds later the counters grew: rates follow.
    let interfaces = vec![
        InterfaceCounters { name: "eth0".to_string(), rx_bytes: 8000, tx_bytes: 3000 },
    ];
    let metrics = compute_metrics(800, 1600, &disks, &interfaces, &mut history, 3000, 44);
    assert_eq!(metrics.network_rx_rate, 2000);
    assert_eq!(metrics.network_tx_rate, 500);
}
