//! The durable store's task encoding: how a task's kind is spelled in a
//! row, and how fetched rows become tasks again.
//!
//! The store itself — a relational or key-value database — is a
//! collaborator reached over the network; the rules for encoding a task
//! kind, decoding it, and keeping fetched rows in creation order while
//! dropping rows this version does not understand, are decided here.

use vstd::prelude::*;
use vstd::string::StringExecFns;
use crate::strutil::str_eq;
use crate::types::{payload_matches_kind, Task, TaskPayload, TaskType};

verus! {

/// How each task kind is spelled in the store.
pub open spec fn spec_task_type_str(task_type: TaskType) -> Seq<char> {
    match task_type {
        TaskType::StartRelay => "start_relay"@,
        TaskType::StopRelay => "stop_relay"@,
        TaskType::UpdateIptables => "update_iptables"@,
        TaskType::ConfigureProxy => "configure_proxy"@,
        TaskType::UpdateConfig => "update_config"@,
    }
}

/// The task kind a stored spelling decodes to, if this version knows it.
pub open spec fn spec_task_type_of(s: Seq<char>) -> Option<TaskType> {
    if s == "start_relay"@ {
        Some(TaskType::StartRelay)
    } else if s == "stop_relay"@ {
        Some(TaskType::StopRelay)
    } else if s == "update_iptables"@ {
        Some(TaskType::UpdateIptables)
    } else if s == "configure_proxy"@ {
        Some(TaskType::ConfigureProxy)
    } else if s == "update_config"@ {
        Some(TaskType::UpdateConfig)
    } else {
        None
    }
}

/// Spells a task kind for the store.
pub fn task_type_to_str(task_type: TaskType) -> (s: String)
    ensures
        s@ == spec_task_type_str(task_type),
{
    match task_type {
        TaskType::StartRelay => <String as StringExecFns>::from_str("start_relay"),
        TaskType::StopRelay => <String as StringExecFns>::from_str("stop_relay"),
        TaskType::UpdateIptables => <String as StringExecFns>::from_str("update_iptables"),
        TaskType::ConfigureProxy => <String as StringExecFns>::from_str("configure_proxy"),
        TaskType::UpdateConfig => <String as StringExecFns>::from_str("update_config"),
    }
}

/// Decodes a stored spelling back to a task kind; a spelling this version
/// does not know decodes to nothing.
pub fn task_type_from_str(s: &str) -> (task_type: Option<TaskType>)
    ensures
        task_type == spec_task_type_of(s@),
{
    if str_eq(s, "start_relay") {
        Some(TaskType::StartRelay)
    } else if str_eq(s, "stop_relay") {
        Some(TaskType::StopRelay)
    } else if str_eq(s, "update_iptables") {
        Some(TaskType::UpdateIptables)
    } else if str_eq(s, "configure_proxy") {
        Some(TaskType::ConfigureProxy)
    } else if str_eq(s, "update_config") {
        Some(TaskType::UpdateConfig)
    } else {
        None
    }
}

/// Every task kind decodes back from its own spelling.
pub proof fn lemma_task_type_round_trip(task_type: TaskType)
    ensures
        spec_task_type_of(spec_task_type_str(task_type)) == Some(task_type),
{
    reveal_strlit("start_relay");
    reveal_strlit("stop_relay");
    reveal_strlit("update_iptables");
    reveal_strlit("configure_proxy");
    reveal_strlit("update_config");
    assert("start_relay"@.len() == 11);
    assert("stop_relay"@.len() == 10);
    assert("update_iptables"@.len() == 15);
    assert("configure_proxy"@.len() == 15);
    assert("update_config"@.len() == 13);
    assert("configure_proxy"@[0] == 'c' && "update_iptables"@[0] == 'u');
    assert("stop_relay"@ != "start_relay"@);
    assert("update_iptables"@ != "start_relay"@);
    assert("update_iptables"@ != "stop_relay"@);
    assert("configure_proxy"@ != "start_relay"@);
    assert("configure_proxy"@ != "stop_relay"@);
    assert("configure_proxy"@ != "update_iptables"@);
    assert("update_config"@ != "start_relay"@);
    assert("update_config"@ != "stop_relay"@);
    assert("update_config"@ != "update_iptables"@);
    assert("update_config"@ != "configure_proxy"@);
}

/// The liveness columns of one agent row, as fetched from the store: a
/// flag for whether a usage reading was ever written, and the nullable
/// rate columns.
#[derive(Debug, Clone, Copy)]
pub struct MetricsRow {
    /// Whether the row's usage columns have ever been written.
    pub has_usage: bool,
    pub network_rx_rate: Option<i64>,
    pub network_tx_rate: Option<i64>,
}

/// Rebuilds the latest metrics snapshot from an agent's row: an agent
/// whose usage columns were never written has no snapshot; absent rate
/// columns read as zero, and only the rates survive a round trip through
/// the row — the byte and size columns are not stored there and read as
/// zero.
pub fn metrics_from_row(row: MetricsRow, timestamp: i64) -> (metrics: Option<
    crate::types::SystemMetrics,
>)
    ensures
        metrics is Some <==> row.has_usage,
        metrics is Some ==> {
            &&& metrics->0.network_rx_rate == (match row.network_rx_rate {
                Some(rate) => rate as u64,
                None => 0u64,
            })
            &&& metrics->0.network_tx_rate == (match row.network_tx_rate {
                Some(rate) => rate as u64,
                None => 0u64,
            })
            &&& metrics->0.memory_used == 0
            &&& metrics->0.memory_total == 0
            &&& metrics->0.disk_used == 0
            &&& metrics->0.disk_total == 0
            &&& metrics->0.network_rx_bytes == 0
            &&& metrics->0.network_tx_bytes == 0
            &&& metrics->0.timestamp == timestamp
        },
{
    if row.has_usage {
        Some(
            crate::types::SystemMetrics {
                memory_used: 0,
                memory_total: 0,
                disk_used: 0,
                disk_total: 0,
                network_rx_bytes: 0,
                network_tx_bytes: 0,
                network_rx_rate: match row.network_rx_rate {
                    Some(rate) => rate as u64,
                    None => 0,
                },
                network_tx_rate: match row.network_tx_rate {
                    Some(rate) => rate as u64,
                    None => 0,
                },
                timestamp,
            },
        )
    } else {
        None
    }
}

/// One pending row fetched from the store, its payload already carried as
/// the typed form.
#[derive(Debug)]
pub struct TaskRow {
    pub id: String,
    pub task_type: String,
    pub payload: TaskPayload,
    pub created_at: i64,
}

/// The tasks a sequence of fetched rows yields, in row order: a row whose
/// kind this version does not know, or whose payload does not match its
/// kind, is dropped; the rest keep their order.
pub open spec fn spec_rows_to_tasks(rows: Seq<TaskRow>) -> Seq<Task>
    decreases rows.len(),
{
    if rows.len() == 0 {
        Seq::empty()
    } else {
        spec_rows_to_tasks(rows.drop_last()) + match spec_task_type_of(rows.last().task_type@) {
            Some(task_type) => if payload_matches_kind(task_type, rows.last().payload) {
                seq![
                    Task {
                        id: rows.last().id,
                        task_type,
                        payload: rows.last().payload,
                        created_at: rows.last().created_at,
                    },
                ]
            } else {
                Seq::<Task>::empty()
            },
            None => Seq::<Task>::empty(),
        }
    }
}

/// Whether a payload is of the variant a task kind calls for.
pub fn payload_kind_matches(task_type: TaskType, payload: &TaskPayload) -> (matching: bool)
    ensures
        matching == payload_matches_kind(task_type, *payload),
{
    match task_type {
        TaskType::StartRelay | TaskType::StopRelay => matches!(payload, TaskPayload::Relay(_)),
        TaskType::UpdateIptables => matches!(payload, TaskPayload::Firewall(_)),
        TaskType::ConfigureProxy => matches!(payload, TaskPayload::Proxy(_)),
        TaskType::UpdateConfig => matches!(payload, TaskPayload::Text(_)),
    }
}

/// Turns fetched rows into tasks, keeping creation order and dropping
/// rows this version cannot act on; every task returned is well formed.
pub fn tasks_from_rows(rows: Vec<TaskRow>) -> (tasks: Vec<Task>)
    ensures
        tasks@ == spec_rows_to_tasks(rows@),
        forall|i: int| 0 <= i < tasks@.len() ==> (#[trigger] tasks@[i]).wf(),
{
    let ghost all = rows@;
    let mut remaining = rows;
    let mut tasks: Vec<Task> = Vec::new();
    let ghost mut i: int = 0;
    while remaining.len() > 0
        invariant
            0 <= i,
            i + remaining@.len() == all.len(),
            remaining@ =~= all.skip(i),
            tasks@ == spec_rows_to_tasks(all.take(i)),
            forall|j: int| 0 <= j < tasks@.len() ==> (#[trigger] tasks@[j]).wf(),
        decreases remaining@.len(),
    {
        let row = remaining.remove(0);
        proof {
            assert(all.skip(i)[0] == all[i]);
            assert(all.skip(i).remove(0) =~= all.skip(i + 1));
            assert(all.take(i + 1).drop_last() =~= all.take(i));
            assert(all.take(i + 1).last() == all[i]);
        }
        match task_type_from_str(row.task_type.as_str()) {
            Some(task_type) => {
                if payload_kind_matches(task_type, &row.payload) {
                    tasks.push(
                        Task {
                            id: row.id,
                            task_type,
                            payload: row.payload,
                            created_at: row.created_at,
                        },
                    );
                }
            },
            None => {},
        }
        proof {
            i = i + 1;
        }
    }
    proof {
        assert(all.take(all.len() as int) =~= all);
    }
    tasks
}

} // verus!
