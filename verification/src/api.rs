//! The coordinator's request handlers: what each protocol call does to the
//! fleet registry and what it answers.
//!
//! These are the handlers behind the coordinator's RPC surface; the wire
//! transport that carries the requests is a collaborator and can be any
//! mechanism that preserves the request and response shapes.

use vstd::prelude::*;
use crate::protocol::{HeartbeatRequest, HeartbeatResponse, MetricsSummary, RegisterRequest,
    RegisterResponse};
use crate::registry::{spec_enqueued_one, spec_heartbeat_accepts, ClientManager, RegistryError};
use crate::types::{ClientInfo, IptablesRule, RelayConfig, Task, TaskPayload, TaskType,
    TransportType};

verus! {

/// Why a protocol call failed.
#[derive(Debug, Clone, Copy, PartialEq, Eq, Structural)]
pub enum ApiError {
    /// The agent is unknown, or its token does not match.
    NotFound,
}

/// Registers the agent — an upsert that always succeeds — and answers with
/// the issued token. The identifier field of the response is left empty;
/// the agent already knows its own id.
pub fn handle_register(manager: &mut ClientManager, request: RegisterRequest, now: i64)
    -> (response: RegisterResponse)
    requires
        old(manager).wf(),
        now >= 0,
    ensures
        final(manager).wf(),
        response.client_id@ == Seq::<char>::empty(),
        response.token@.len() == 36,
        final(manager).spec_clients().contains_key(request.client_info.id@),
        final(manager).spec_clients()[request.client_info.id@].info == request.client_info,
        final(manager).spec_clients()[request.client_info.id@].status is Online,
        final(manager).spec_clients()[request.client_info.id@].last_heartbeat == now,
        final(manager).spec_clients()[request.client_info.id@].token@ == response.token@,
        final(manager).spec_clients()[request.client_info.id@].pending_tasks@
            == if old(manager).spec_clients().contains_key(request.client_info.id@) {
                old(manager).spec_clients()[request.client_info.id@].pending_tasks@
            } else {
                Seq::<Task>::empty()
            },
        final(manager).spec_clients().remove(request.client_info.id@) =~= old(
            manager,
        ).spec_clients().remove(request.client_info.id@),
    {
    let token = manager.register_client(request.client_info, now);
    RegisterResponse { client_id: String::new(), token }
}

/// Handles a heartbeat: accepts it exactly when the agent is registered
/// and echoes its stored token. On success the liveness timer resets, an
/// attached metrics snapshot is stored, and the answer carries status
/// `ok` together with every task that was pending — drained from the
/// queue, oldest first, so no later heartbeat sees them again. On refusal
/// the registry is untouched and the agent must re-register.
pub fn handle_heartbeat(manager: &mut ClientManager, request: HeartbeatRequest, now: i64)
    -> (response: Result<HeartbeatResponse, ApiError>)
    requires
        old(manager).wf(),
        now >= 0,
    ensures
        final(manager).wf(),
        response is Ok <==> spec_heartbeat_accepts(
            old(manager).spec_clients(),
            request.client_id@,
            request.token@,
        ),
        response is Err ==> response->Err_0 == ApiError::NotFound
            && final(manager).spec_entries() == old(manager).spec_entries(),
        response is Ok ==> {
            &&& response->Ok_0.status@ == "ok"@
            &&& response->Ok_0.tasks@ == old(manager).spec_clients()[request.client_id@].pending_tasks@
            &&& final(manager).spec_clients().contains_key(request.client_id@)
            &&& final(manager).spec_clients()[request.client_id@].status is Online
            &&& final(manager).spec_clients()[request.client_id@].last_heartbeat == now
            &&& final(manager).spec_clients()[request.client_id@].pending_tasks@
                == Seq::<Task>::empty()
            &&& final(manager).spec_clients()[request.client_id@].metrics
                == if request.metrics is Some {
                    request.metrics
                } else {
                    old(manager).spec_clients()[request.client_id@].metrics
                }
            &&& final(manager).spec_clients().remove(request.client_id@) =~= old(
                manager,
            ).spec_clients().remove(request.client_id@)
        },
    {
    match manager.update_heartbeat(&request.client_id, &request.token, now) {
        Ok(()) => {
            match request.metrics {
                Some(metrics) => manager.update_metrics(&request.client_id, metrics),
                None => {},
            }
            let tasks = manager.get_pending_tasks(&request.client_id);
            Ok(
                HeartbeatResponse {
                    status: <String as vstd::string::StringExecFns>::from_str("ok"),
                    tasks,
                },
            )
        },
        Err(RegistryError::NotFound) => Err(ApiError::NotFound),
    }
}

/// Answers the fleet listing: a snapshot of every known agent's identity,
/// whatever its status.
pub fn handle_list(manager: &ClientManager) -> (infos: Vec<ClientInfo>)
    requires
        manager.wf(),
    ensures
        infos@.len() == manager.spec_entries().len(),
        forall|i: int| 0 <= i < infos@.len() ==> crate::registry::same_client_info(
            infos@[i],
            (#[trigger] manager.spec_entries()[i]).1.info,
        ),
{
    manager.list_clients()
}

/// Answers the fleet-wide summary: how many agents are known, pinned at
/// the counter's ceiling for an implausibly large fleet. The online count
/// mirrors the total, and the bandwidth totals are not yet aggregated and
/// answer zero.
pub fn handle_metrics_summary(manager: &ClientManager) -> (summary: MetricsSummary)
    requires
        manager.wf(),
    ensures
        summary.total_clients == if manager.spec_entries().len() <= u32::MAX {
            manager.spec_entries().len()
        } else {
            u32::MAX as nat
        },
        summary.online_clients == summary.total_clients,
        summary.total_bandwidth_rx == 0,
        summary.total_bandwidth_tx == 0,
{
    let infos = manager.list_clients();
    let total: u32 = if infos.len() <= u32::MAX as usize {
        infos.len() as u32
    } else {
        u32::MAX
    };
    MetricsSummary {
        total_clients: total,
        online_clients: total,
        total_bandwidth_rx: 0,
        total_bandwidth_tx: 0,
    }
}

/// Queues a start-relay task for the entry agent, carrying the descriptor
/// as given. Fails exactly when the agent is unknown.
pub fn handle_relay_start(
    manager: &mut ClientManager,
    entry_client_id: &String,
    relay_config: RelayConfig,
    now: i64,
) -> (outcome: Result<(), ApiError>)
    requires
        old(manager).wf(),
    ensures
        final(manager).wf(),
        outcome is Ok <==> old(manager).spec_clients().contains_key(entry_client_id@),
        outcome is Err ==> outcome->Err_0 == ApiError::NotFound
            && final(manager).spec_entries() == old(manager).spec_entries(),
        outcome is Ok ==> spec_enqueued_one(
            old(manager).spec_clients(),
            final(manager).spec_clients(),
            entry_client_id@,
            TaskType::StartRelay,
            TaskPayload::Relay(relay_config),
            now,
        ),
{
    match manager.create_relay_task(entry_client_id, relay_config, now) {
        Ok(()) => Ok(()),
        Err(RegistryError::NotFound) => Err(ApiError::NotFound),
    }
}

/// Queues a stop-relay task for the agent: the descriptor names the pair
/// to stop, and its transport field is direct — it plays no part in a
/// stop. Fails exactly when the agent is unknown.
pub fn handle_relay_stop(
    manager: &mut ClientManager,
    client_id: &String,
    entry_point: String,
    exit_point: String,
    now: i64,
) -> (outcome: Result<(), ApiError>)
    requires
        old(manager).wf(),
    ensures
        final(manager).wf(),
        outcome is Ok <==> old(manager).spec_clients().contains_key(client_id@),
        outcome is Err ==> outcome->Err_0 == ApiError::NotFound
            && final(manager).spec_entries() == old(manager).spec_entries(),
        outcome is Ok ==> spec_enqueued_one(
            old(manager).spec_clients(),
            final(manager).spec_clients(),
            client_id@,
            TaskType::StopRelay,
            TaskPayload::Relay(
                RelayConfig { entry_point, exit_point, transport_type: TransportType::Direct },
            ),
            now,
        ),
{
    let relay_config = RelayConfig {
        entry_point,
        exit_point,
        transport_type: TransportType::Direct,
    };
    match manager.create_stop_relay_task(client_id, relay_config, now) {
        Ok(()) => Ok(()),
        Err(RegistryError::NotFound) => Err(ApiError::NotFound),
    }
}

/// Queues a firewall-update task carrying the whole rule batch. Fails
/// exactly when the agent is unknown.
pub fn handle_iptables_update(
    manager: &mut ClientManager,
    client_id: &String,
    rules: Vec<IptablesRule>,
    now: i64,
) -> (outcome: Result<(), ApiError>)
    requires
        old(manager).wf(),
    ensures
        final(manager).wf(),
        outcome is Ok <==> old(manager).spec_clients().contains_key(client_id@),
        outcome is Err ==> outcome->Err_0 == ApiError::NotFound
            && final(manager).spec_entries() == old(manager).spec_entries(),
        outcome is Ok ==> spec_enqueued_one(
            old(manager).spec_clients(),
            final(manager).spec_clients(),
            client_id@,
            TaskType::UpdateIptables,
            TaskPayload::Firewall(rules),
            now,
        ),
{
    match manager.create_iptables_task(client_id, rules, now) {
        Ok(()) => Ok(()),
        Err(RegistryError::NotFound) => Err(ApiError::NotFound),
    }
}

/// Queues a firewall-update task for one rule: the rule travels as a batch
/// of one. Fails exactly when the agent is unknown.
pub fn handle_apply_rule(
    manager: &mut ClientManager,
    client_id: &String,
    rule: IptablesRule,
    now: i64,
) -> (outcome: Result<(), ApiError>)
    requires
        old(manager).wf(),
    ensures
        final(manager).wf(),
        outcome is Ok <==> old(manager).spec_clients().contains_key(client_id@),
        outcome is Err ==> outcome->Err_0 == ApiError::NotFound
            && final(manager).spec_entries() == old(manager).spec_entries(),
        outcome is Ok ==> {
            &&& final(manager).spec_clients()[client_id@].pending_tasks@.last().task_type
                == TaskType::UpdateIptables
            &&& final(manager).spec_clients()[client_id@].pending_tasks@.last().payload
                is Firewall
            &&& final(manager).spec_clients()[client_id@].pending_tasks@.last().payload->Firewall_0@
                =~= seq![rule]
            &&& final(manager).spec_clients()[client_id@].pending_tasks@.len()
                == old(manager).spec_clients()[client_id@].pending_tasks@.len() + 1
            &&& final(manager).spec_clients()[client_id@].pending_tasks@.take(
                old(manager).spec_clients()[client_id@].pending_tasks@.len() as int,
            ) == old(manager).spec_clients()[client_id@].pending_tasks@
            &&& final(manager).spec_clients().remove(client_id@) =~= old(
                manager,
            ).spec_clients().remove(client_id@)
        },
{
    let mut batch: Vec<IptablesRule> = Vec::new();
    batch.push(rule);
    match manager.create_iptables_task(client_id, batch, now) {
        Ok(()) => Ok(()),
        Err(RegistryError::NotFound) => Err(ApiError::NotFound),
    }
}

} // verus!
