//! The fleet registry: per-agent state and the liveness state machine.
//!
//! The coordinator owns one record per agent: identity, liveness status,
//! the time of the last successful heartbeat, the latest metrics snapshot,
//! a bearer token, and the agent's pending task queue. Registration is an
//! idempotent upsert that issues a fresh token; a heartbeat must echo the
//! stored token and resets the liveness timer; a periodic sweep is the only
//! path that turns an online agent offline, and it never removes a record.
//! Tasks wait in an agent's queue until a poll drains them, all at once and
//! in the order they were created.

use vstd::prelude::*;
use crate::kvmap::{kv_find, kv_map, kv_unique, lemma_kv_contains, lemma_kv_index, lemma_kv_push,
    lemma_kv_remove};
use crate::types::{ClientInfo, ClientStatus, IptablesRule, RelayConfig, SystemMetrics, Task,
    TaskPayload, TaskType};

verus! {

/// Why a registry operation failed.
#[derive(Debug, Clone, Copy, PartialEq, Eq, Structural)]
pub enum RegistryError {
    /// The agent was never registered, or the token does not match.
    NotFound,
}

/// Everything the registry holds about one agent.
#[derive(Debug)]
pub struct ClientState {
    /// Identity captured at the agent's most recent registration.
    pub info: ClientInfo,
    /// Current liveness status.
    pub status: ClientStatus,
    /// Seconds since the epoch of the last successful heartbeat.
    pub last_heartbeat: i64,
    /// Most recent metrics snapshot, if the agent has reported one.
    pub metrics: Option<SystemMetrics>,
    /// The bearer token a heartbeat must echo.
    pub token: String,
    /// Tasks waiting for the agent's next poll, oldest first.
    pub pending_tasks: Vec<Task>,
}

/// Whether a record whose last heartbeat was at `last` is stale at `now`
/// under the given timeout: strictly more than `timeout_secs` seconds of
/// silence.
pub open spec fn spec_stale(last: int, now: int, timeout_secs: int) -> bool {
    now - last > timeout_secs
}

/// A heartbeat for `client_id` echoing `token` is accepted exactly when a
/// record exists and holds that token.
pub open spec fn spec_heartbeat_accepts(
    clients: Map<Seq<char>, ClientState>,
    client_id: Seq<char>,
    token: Seq<char>,
) -> bool {
    clients.contains_key(client_id) && clients[client_id].token@ == token
}

/// What the sweep does to one record: an online record that has been silent
/// longer than the timeout goes offline; every other record is untouched.
pub open spec fn spec_sweep_one(state: ClientState, now: int, timeout_secs: int) -> ClientState {
    if state.status is Online && spec_stale(state.last_heartbeat as int, now, timeout_secs) {
        ClientState { status: ClientStatus::Offline, ..state }
    } else {
        state
    }
}

/// What the sweep does to the whole fleet: every record swept, none
/// created, none removed.
pub open spec fn spec_swept(
    clients: Map<Seq<char>, ClientState>,
    now: int,
    timeout_secs: int,
) -> Map<Seq<char>, ClientState> {
    clients.map_values(|state: ClientState| spec_sweep_one(state, now, timeout_secs))
}

/// Relies on uuid's `Uuid::new_v4` and its `Display` form: a fresh random
/// identifier, formatted as 36 hyphenated hexadecimal characters. Nothing
/// is promised of its value.
#[verifier::external_body]
fn uuid_string() -> (id: String)
    ensures
        id@.len() == 36,
{
    uuid::Uuid::new_v4().to_string()
}

/// The coordinator's authority over the fleet: holds every agent record
/// and enforces the liveness state machine.
pub struct ClientManager {
    clients: Vec<(String, ClientState)>,
}

impl ClientManager {
    /// The agent records, keyed by agent id, in registry order.
    pub closed spec fn spec_entries(self) -> Seq<(String, ClientState)> {
        self.clients@
    }

    /// The agent records as a map from agent id to record.
    pub open spec fn spec_clients(self) -> Map<Seq<char>, ClientState> {
        kv_map(self.spec_entries())
    }

    /// Each id appears once, each entry's key is its record's id, heartbeat
    /// times are non-negative, and every queued task is well formed.
    pub closed spec fn wf(self) -> bool {
        &&& kv_unique(self.clients@)
        &&& forall|i: int| 0 <= i < self.clients@.len()
            ==> (#[trigger] self.clients@[i]).0@ == self.clients@[i].1.info.id@
        &&& forall|i: int| 0 <= i < self.clients@.len()
            ==> (#[trigger] self.clients@[i]).1.last_heartbeat >= 0
        &&& forall|i: int, j: int|
            0 <= i < self.clients@.len() && 0 <= j < self.clients@[i].1.pending_tasks@.len()
                ==> (#[trigger] self.clients@[i].1.pending_tasks@[j]).wf()
    }

    /// An empty registry.
    pub fn new() -> (manager: ClientManager)
        ensures
            manager.wf(),
            manager.spec_entries() =~= Seq::<(String, ClientState)>::empty(),
            manager.spec_clients() =~= Map::<Seq<char>, ClientState>::empty(),
    {
        ClientManager { clients: Vec::new() }
    }

    /// Registers an agent: an idempotent upsert that always succeeds. The
    /// record is stored afresh with status online, the heartbeat timer set
    /// to `now` and a newly issued token; tasks already waiting in the
    /// agent's queue stay queued. Any token issued earlier for this agent
    /// stops being accepted.
    pub fn register_client(&mut self, info: ClientInfo, now: i64) -> (token: String)
        requires
            old(self).wf(),
            now >= 0,
        ensures
            final(self).wf(),
            token@.len() == 36,
            final(self).spec_clients().contains_key(info.id@),
            final(self).spec_clients()[info.id@].info == info,
            final(self).spec_clients()[info.id@].status is Online,
            final(self).spec_clients()[info.id@].last_heartbeat == now,
            final(self).spec_clients()[info.id@].metrics is None,
            final(self).spec_clients()[info.id@].token@ == token@,
            final(self).spec_clients()[info.id@].pending_tasks@
                == if old(self).spec_clients().contains_key(info.id@) {
                    old(self).spec_clients()[info.id@].pending_tasks@
                } else {
                    Seq::<Task>::empty()
                },
            final(self).spec_clients().remove(info.id@) =~= old(self).spec_clients().remove(
                info.id@,
            ),
    {
        let token = uuid_string();
        let pending: Vec<Task> = match kv_find(&self.clients, &info.id) {
            Some(i) => {
                proof {
                    lemma_kv_index(self.clients@, i as int);
                    lemma_kv_remove(self.clients@, i as int);
                }
                let (_, prior) = self.clients.remove(i);
                prior.pending_tasks
            },
            None => {
                proof {
                    lemma_kv_contains(self.clients@, info.id@);
                }
                Vec::new()
            },
        };
        let ghost trimmed = self.clients@;
        let key = info.id.clone();
        let state = ClientState {
            info,
            status: ClientStatus::Online,
            last_heartbeat: now,
            metrics: None,
            token: token.clone(),
            pending_tasks: pending,
        };
        self.clients.push((key, state));
        proof {
            lemma_kv_push(trimmed, self.clients@.last());
            assert(self.clients@.drop_last() =~= trimmed);
            assert(final(self).spec_clients().remove(state.info.id@) =~= kv_map(trimmed).remove(
                state.info.id@,
            ));
        }
        token
    }

    /// Accepts a heartbeat exactly when the agent is registered and echoes
    /// its stored token; then the record goes online and its timer resets
    /// to `now`, and nothing else changes. An unknown agent or a stale
    /// token is refused, the registry untouched.
    pub fn update_heartbeat(&mut self, client_id: &String, token: &String, now: i64) -> (outcome:
        Result<(), RegistryError>)
        requires
            old(self).wf(),
            now >= 0,
        ensures
            final(self).wf(),
            outcome is Ok <==> spec_heartbeat_accepts(old(self).spec_clients(), client_id@, token@),
            outcome is Err ==> outcome->Err_0 == RegistryError::NotFound
                && final(self).spec_entries() == old(self).spec_entries(),
            outcome is Ok ==> {
                &&& final(self).spec_clients().contains_key(client_id@)
                &&& final(self).spec_clients()[client_id@].status is Online
                &&& final(self).spec_clients()[client_id@].last_heartbeat == now
                &&& final(self).spec_clients()[client_id@].info == old(self).spec_clients()[client_id@].info
                &&& final(self).spec_clients()[client_id@].metrics == old(self).spec_clients()[client_id@].metrics
                &&& final(self).spec_clients()[client_id@].token@ == old(self).spec_clients()[client_id@].token@
                &&& final(self).spec_clients()[client_id@].pending_tasks@ == old(self).spec_clients()[client_id@].pending_tasks@
                &&& final(self).spec_clients().remove(client_id@) =~= old(self).spec_clients().remove(client_id@)
            },
    {
        proof {
            lemma_kv_contains(self.clients@, client_id@);
        }
        match kv_find(&self.clients, client_id) {
            Some(i) => {
                proof {
                    lemma_kv_index(self.clients@, i as int);
                    lemma_kv_remove(self.clients@, i as int);
                }
                let (key, mut state) = self.clients.remove(i);
                if state.token == *token {
                    let ghost trimmed = self.clients@;
                    state.status = ClientStatus::Online;
                    state.last_heartbeat = now;
                    self.clients.push((key, state));
                    proof {
                        lemma_kv_push(trimmed, self.clients@.last());
                        assert(final(self).spec_clients().remove(client_id@) =~= kv_map(
                            trimmed,
                        ).remove(client_id@));
                    }
                    Ok(())
                } else {
                    // Put the record back untouched: a stale token must not
                    // disturb the registry.
                    self.clients.insert(i, (key, state));
                    proof {
                        assert(self.clients@ =~= old(self).spec_entries());
                    }
                    Err(RegistryError::NotFound)
                }
            },
            None => Err(RegistryError::NotFound),
        }
    }

    /// Stores an agent's metrics snapshot, best-effort: an unknown agent is
    /// ignored, liveness is not affected.
    pub fn update_metrics(&mut self, client_id: &String, metrics: SystemMetrics)
        requires
            old(self).wf(),
        ensures
            final(self).wf(),
            old(self).spec_clients().contains_key(client_id@) ==> {
                &&& final(self).spec_clients().contains_key(client_id@)
                &&& final(self).spec_clients()[client_id@].metrics == Some(metrics)
                &&& final(self).spec_clients()[client_id@].info == old(self).spec_clients()[client_id@].info
                &&& final(self).spec_clients()[client_id@].status == old(self).spec_clients()[client_id@].status
                &&& final(self).spec_clients()[client_id@].last_heartbeat == old(self).spec_clients()[client_id@].last_heartbeat
                &&& final(self).spec_clients()[client_id@].token@ == old(self).spec_clients()[client_id@].token@
                &&& final(self).spec_clients()[client_id@].pending_tasks@ == old(self).spec_clients()[client_id@].pending_tasks@
                &&& final(self).spec_clients().remove(client_id@) =~= old(self).spec_clients().remove(client_id@)
            },
            !old(self).spec_clients().contains_key(client_id@) ==> final(self).spec_entries()
                == old(self).spec_entries(),
    {
        proof {
            lemma_kv_contains(self.clients@, client_id@);
        }
        match kv_find(&self.clients, client_id) {
            Some(i) => {
                proof {
                    lemma_kv_index(self.clients@, i as int);
                    lemma_kv_remove(self.clients@, i as int);
                }
                let (key, mut state) = self.clients.remove(i);
                let ghost trimmed = self.clients@;
                state.metrics = Some(metrics);
                self.clients.push((key, state));
                proof {
                    lemma_kv_push(trimmed, self.clients@.last());
                    assert(final(self).spec_clients().remove(client_id@) =~= kv_map(
                        trimmed,
                    ).remove(client_id@));
                }
            },
            None => {},
        }
    }

    /// Hands out and clears the agent's pending queue: every waiting task,
    /// oldest first, exactly once — a second poll finds the queue empty. An
    /// unknown agent gets an empty list, never an error.
    pub fn get_pending_tasks(&mut self, client_id: &String) -> (tasks: Vec<Task>)
        requires
            old(self).wf(),
        ensures
            final(self).wf(),
            old(self).spec_clients().contains_key(client_id@) ==> {
                &&& tasks@ == old(self).spec_clients()[client_id@].pending_tasks@
                &&& final(self).spec_clients().contains_key(client_id@)
                &&& final(self).spec_clients()[client_id@].pending_tasks@ == Seq::<Task>::empty()
                &&& final(self).spec_clients()[client_id@].info == old(self).spec_clients()[client_id@].info
                &&& final(self).spec_clients()[client_id@].status == old(self).spec_clients()[client_id@].status
                &&& final(self).spec_clients()[client_id@].last_heartbeat == old(self).spec_clients()[client_id@].last_heartbeat
                &&& final(self).spec_clients()[client_id@].metrics == old(self).spec_clients()[client_id@].metrics
                &&& final(self).spec_clients()[client_id@].token@ == old(self).spec_clients()[client_id@].token@
                &&& final(self).spec_clients().remove(client_id@) =~= old(self).spec_clients().remove(client_id@)
            },
            !old(self).spec_clients().contains_key(client_id@) ==> tasks@ == Seq::<Task>::empty()
                && final(self).spec_entries() == old(self).spec_entries(),
            forall|j: int| 0 <= j < tasks@.len() ==> (#[trigger] tasks@[j]).wf(),
    {
        proof {
            lemma_kv_contains(self.clients@, client_id@);
        }
        match kv_find(&self.clients, client_id) {
            Some(i) => {
                proof {
                    lemma_kv_index(self.clients@, i as int);
                    lemma_kv_remove(self.clients@, i as int);
                }
                let (key, mut state) = self.clients.remove(i);
                let ghost trimmed = self.clients@;
                let tasks = state.pending_tasks;
                state.pending_tasks = Vec::new();
                self.clients.push((key, state));
                proof {
                    lemma_kv_push(trimmed, self.clients@.last());
                    assert(final(self).spec_clients().remove(client_id@) =~= kv_map(
                        trimmed,
                    ).remove(client_id@));
                }
                tasks
            },
            None => Vec::new(),
        }
    }

    /// Appends a task to a registered agent's queue; the agent need not be
    /// online. Fails exactly when the agent is unknown.
    fn enqueue_task(&mut self, client_id: &String, task: Task) -> (outcome: Result<
        (),
        RegistryError,
    >)
        requires
            old(self).wf(),
            task.wf(),
        ensures
            final(self).wf(),
            outcome is Ok <==> old(self).spec_clients().contains_key(client_id@),
            outcome is Err ==> outcome->Err_0 == RegistryError::NotFound
                && final(self).spec_entries() == old(self).spec_entries(),
            outcome is Ok ==> {
                &&& final(self).spec_clients().contains_key(client_id@)
                &&& final(self).spec_clients()[client_id@].pending_tasks@
                    == old(self).spec_clients()[client_id@].pending_tasks@.push(task)
                &&& final(self).spec_clients()[client_id@].info == old(self).spec_clients()[client_id@].info
                &&& final(self).spec_clients()[client_id@].status == old(self).spec_clients()[client_id@].status
                &&& final(self).spec_clients()[client_id@].last_heartbeat == old(self).spec_clients()[client_id@].last_heartbeat
                &&& final(self).spec_clients()[client_id@].metrics == old(self).spec_clients()[client_id@].metrics
                &&& final(self).spec_clients()[client_id@].token@ == old(self).spec_clients()[client_id@].token@
                &&& final(self).spec_clients().remove(client_id@) =~= old(self).spec_clients().remove(client_id@)
            },
    {
        proof {
            lemma_kv_contains(self.clients@, client_id@);
        }
        match kv_find(&self.clients, client_id) {
            Some(i) => {
                proof {
                    lemma_kv_index(self.clients@, i as int);
                    lemma_kv_remove(self.clients@, i as int);
                }
                let (key, mut state) = self.clients.remove(i);
                let ghost trimmed = self.clients@;
                state.pending_tasks.push(task);
                self.clients.push((key, state));
                proof {
                    lemma_kv_push(trimmed, self.clients@.last());
                    assert(final(self).spec_clients().remove(client_id@) =~= kv_map(
                        trimmed,
                    ).remove(client_id@));
                }
                Ok(())
            },
            None => Err(RegistryError::NotFound),
        }
    }

    /// Queues a start-relay task for the agent, stamped `now`, with a fresh
    /// task id. Fails exactly when the agent is unknown.
    pub fn create_relay_task(
        &mut self,
        client_id: &String,
        relay_config: RelayConfig,
        now: i64,
    ) -> (outcome: Result<(), RegistryError>)
        requires
            old(self).wf(),
        ensures
            final(self).wf(),
            outcome is Ok <==> old(self).spec_clients().contains_key(client_id@),
            outcome is Err ==> outcome->Err_0 == RegistryError::NotFound
                && final(self).spec_entries() == old(self).spec_entries(),
            outcome is Ok ==> spec_enqueued_one(
                old(self).spec_clients(),
                final(self).spec_clients(),
                client_id@,
                TaskType::StartRelay,
                TaskPayload::Relay(relay_config),
                now,
            ),
    {
        let task = Task {
            id: uuid_string(),
            task_type: TaskType::StartRelay,
            payload: TaskPayload::Relay(relay_config),
            created_at: now,
        };
        let outcome = self.enqueue_task(client_id, task);
        proof {
            if outcome is Ok {
                assert(final(self).spec_clients()[client_id@].pending_tasks@.take(
                    old(self).spec_clients()[client_id@].pending_tasks@.len() as int,
                ) =~= old(self).spec_clients()[client_id@].pending_tasks@);
            }
        }
        outcome
    }

    /// Queues a stop-relay task for the agent, stamped `now`, with a fresh
    /// task id. Fails exactly when the agent is unknown.
    pub fn create_stop_relay_task(
        &mut self,
        client_id: &String,
        relay_config: RelayConfig,
        now: i64,
    ) -> (outcome: Result<(), RegistryError>)
        requires
            old(self).wf(),
        ensures
            final(self).wf(),
            outcome is Ok <==> old(self).spec_clients().contains_key(client_id@),
            outcome is Err ==> outcome->Err_0 == RegistryError::NotFound
                && final(self).spec_entries() == old(self).spec_entries(),
            outcome is Ok ==> spec_enqueued_one(
                old(self).spec_clients(),
                final(self).spec_clients(),
                client_id@,
                TaskType::StopRelay,
                TaskPayload::Relay(relay_config),
                now,
            ),
    {
        let task = Task {
            id: uuid_string(),
            task_type: TaskType::StopRelay,
            payload: TaskPayload::Relay(relay_config),
            created_at: now,
        };
        let outcome = self.enqueue_task(client_id, task);
        proof {
            if outcome is Ok {
                assert(final(self).spec_clients()[client_id@].pending_tasks@.take(
                    old(self).spec_clients()[client_id@].pending_tasks@.len() as int,
                ) =~= old(self).spec_clients()[client_id@].pending_tasks@);
            }
        }
        outcome
    }

    /// Queues a firewall-update task carrying the whole rule batch, stamped
    /// `now`, with a fresh task id. Fails exactly when the agent is
    /// unknown.
    pub fn create_iptables_task(
        &mut self,
        client_id: &String,
        rules: Vec<IptablesRule>,
        now: i64,
    ) -> (outcome: Result<(), RegistryError>)
        requires
            old(self).wf(),
        ensures
            final(self).wf(),
            outcome is Ok <==> old(self).spec_clients().contains_key(client_id@),
            outcome is Err ==> outcome->Err_0 == RegistryError::NotFound
                && final(self).spec_entries() == old(self).spec_entries(),
            outcome is Ok ==> spec_enqueued_one(
                old(self).spec_clients(),
                final(self).spec_clients(),
                client_id@,
                TaskType::UpdateIptables,
                TaskPayload::Firewall(rules),
                now,
            ),
    {
        let task = Task {
            id: uuid_string(),
            task_type: TaskType::UpdateIptables,
            payload: TaskPayload::Firewall(rules),
            created_at: now,
        };
        let outcome = self.enqueue_task(client_id, task);
        proof {
            if outcome is Ok {
                assert(final(self).spec_clients()[client_id@].pending_tasks@.take(
                    old(self).spec_clients()[client_id@].pending_tasks@.len() as int,
                ) =~= old(self).spec_clients()[client_id@].pending_tasks@);
            }
        }
        outcome
    }

    /// The liveness status of one agent, if it is registered.
    pub fn client_status(&self, client_id: &String) -> (status: Option<ClientStatus>)
        requires
            self.wf(),
        ensures
            status is Some <==> self.spec_clients().contains_key(client_id@),
            status is Some ==> status->0 == self.spec_clients()[client_id@].status,
    {
        proof {
            lemma_kv_contains(self.clients@, client_id@);
        }
        match kv_find(&self.clients, client_id) {
            Some(i) => {
                proof {
                    lemma_kv_index(self.clients@, i as int);
                }
                match &self.clients[i].1.status {
                    ClientStatus::Online => Some(ClientStatus::Online),
                    ClientStatus::Offline => Some(ClientStatus::Offline),
                    ClientStatus::Error(reason) => Some(ClientStatus::Error(reason.clone())),
                }
            },
            None => None,
        }
    }

    /// A snapshot of every known agent's identity, whatever its status.
    pub fn list_clients(&self) -> (infos: Vec<ClientInfo>)
        requires
            self.wf(),
        ensures
            infos@.len() == self.spec_entries().len(),
            forall|i: int| 0 <= i < infos@.len() ==> same_client_info(
                infos@[i],
                (#[trigger] self.spec_entries()[i]).1.info,
            ),
    {
        let mut infos: Vec<ClientInfo> = Vec::new();
        let mut i: usize = 0;
        while i < self.clients.len()
            invariant
                i <= self.clients@.len(),
                infos@.len() == i,
                forall|j: int| 0 <= j < i ==> same_client_info(
                    infos@[j],
                    (#[trigger] self.clients@[j]).1.info,
                ),
            decreases self.clients@.len() - i,
        {
            infos.push(clone_client_info(&self.clients[i].1.info));
            i = i + 1;
        }
        infos
    }

    /// The sweep: every online record that has been silent longer than
    /// `timeout_secs` goes offline; everything else — offline records,
    /// error records, timers, identities, tokens, queues — stays exactly as
    /// it was, and no record is created or removed.
    pub fn cleanup_inactive_clients(&mut self, now: i64, timeout_secs: i64)
        requires
            old(self).wf(),
            now >= 0,
            timeout_secs >= 0,
        ensures
            final(self).wf(),
            final(self).spec_entries().len() == old(self).spec_entries().len(),
            forall|i: int| 0 <= i < old(self).spec_entries().len()
                ==> (#[trigger] final(self).spec_entries()[i]).0 == old(self).spec_entries()[i].0
                    && final(self).spec_entries()[i].1 == spec_sweep_one(
                    old(self).spec_entries()[i].1,
                    now as int,
                    timeout_secs as int,
                ),
            final(self).spec_clients() =~= spec_swept(
                old(self).spec_clients(),
                now as int,
                timeout_secs as int,
            ),
    {
        let ghost before = self.clients@;
        let mut swept: Vec<(String, ClientState)> = Vec::new();
        let mut remaining: Vec<(String, ClientState)> = Vec::new();
        core::mem::swap(&mut remaining, &mut self.clients);
        let ghost total = before.len();
        let ghost mut i: int = 0;
        while remaining.len() > 0
            invariant
                timeout_secs >= 0,
                before.len() == total,
                0 <= i,
                i + remaining@.len() == total,
                remaining@ =~= before.skip(i),
                swept@.len() == i,
                forall|j: int| 0 <= j < total ==> (#[trigger] before[j]).1.last_heartbeat >= 0,
                forall|j: int| 0 <= j < i ==> (#[trigger] swept@[j]).0 == before[j].0
                    && swept@[j].1 == spec_sweep_one(
                    before[j].1,
                    now as int,
                    timeout_secs as int,
                ),
            decreases remaining@.len(),
        {
            let (key, mut state) = remaining.remove(0);
            proof {
                assert(before.skip(i)[0] == before[i]);
                assert(before.skip(i).remove(0) =~= before.skip(i + 1));
            }
            let stale = now > state.last_heartbeat && now - state.last_heartbeat > timeout_secs;
            if state.status.is_online() && stale {
                state.status = ClientStatus::Offline;
            }
            swept.push((key, state));
            proof {
                i = i + 1;
            }
        }
        self.clients = swept;
        proof {
            assert(self.clients@.len() == before.len());
            lemma_kv_map_sweep(before, self.clients@, now as int, timeout_secs as int);
        }
    }
}

/// One task was appended to `client_id`'s queue and nothing else changed:
/// the queue grew by a fresh, well-formed task of the given kind, payload
/// and creation time, the rest of the record kept its fields, and every
/// other record is untouched.
pub open spec fn spec_enqueued_one(
    before: Map<Seq<char>, ClientState>,
    after: Map<Seq<char>, ClientState>,
    client_id: Seq<char>,
    task_type: TaskType,
    payload: TaskPayload,
    created_at: i64,
) -> bool {
    &&& after.contains_key(client_id)
    &&& after[client_id].pending_tasks@.len() == before[client_id].pending_tasks@.len() + 1
    &&& after[client_id].pending_tasks@.take(before[client_id].pending_tasks@.len() as int)
        == before[client_id].pending_tasks@
    &&& after[client_id].pending_tasks@.last().task_type == task_type
    &&& after[client_id].pending_tasks@.last().payload == payload
    &&& after[client_id].pending_tasks@.last().created_at == created_at
    &&& after[client_id].pending_tasks@.last().id@.len() == 36
    &&& after[client_id].info == before[client_id].info
    &&& after[client_id].status == before[client_id].status
    &&& after[client_id].last_heartbeat == before[client_id].last_heartbeat
    &&& after[client_id].metrics == before[client_id].metrics
    &&& after[client_id].token@ == before[client_id].token@
    &&& after.remove(client_id) =~= before.remove(client_id)
}

/// Two identities that agree in every field; the capability vectors are
/// compared by their contents.
pub open spec fn same_client_info(a: ClientInfo, b: ClientInfo) -> bool {
    &&& a.id == b.id
    &&& a.hostname == b.hostname
    &&& a.ip == b.ip
    &&& a.version == b.version
    &&& a.capabilities@ == b.capabilities@
    &&& a.system_info == b.system_info
}

/// A copy of an agent identity, field by field.
pub fn clone_client_info(info: &ClientInfo) -> (copy: ClientInfo)
    ensures
        same_client_info(copy, *info),
{
    let mut capabilities: Vec<String> = Vec::new();
    let mut i: usize = 0;
    while i < info.capabilities.len()
        invariant
            i <= info.capabilities@.len(),
            capabilities@.len() == i,
            forall|j: int| 0 <= j < i ==> capabilities@[j] == info.capabilities@[j],
        decreases info.capabilities@.len() - i,
    {
        capabilities.push(info.capabilities[i].clone());
        i = i + 1;
    }
    proof {
        assert(capabilities@ =~= info.capabilities@);
    }
    let copy = ClientInfo {
        id: info.id.clone(),
        hostname: info.hostname.clone(),
        ip: info.ip.clone(),
        version: info.version.clone(),
        capabilities,
        system_info: crate::types::clone_system_info(&info.system_info),
    };
    copy
}

/// Sweeping the entries pointwise sweeps the map: same keys, each value
/// swept.
proof fn lemma_kv_map_sweep(
    before: Seq<(String, ClientState)>,
    after: Seq<(String, ClientState)>,
    now: int,
    timeout_secs: int,
)
    requires
        before.len() == after.len(),
        forall|j: int| 0 <= j < before.len() ==> (#[trigger] after[j]).0 == before[j].0
            && after[j].1 == spec_sweep_one(before[j].1, now, timeout_secs),
    ensures
        kv_map(after) =~= spec_swept(kv_map(before), now, timeout_secs),
    decreases before.len(),
{
    if before.len() > 0 {
        assert(forall|j: int| 0 <= j < before.drop_last().len()
            ==> (#[trigger] after.drop_last()[j]).0 == before.drop_last()[j].0
                && after.drop_last()[j].1 == spec_sweep_one(
                before.drop_last()[j].1,
                now,
                timeout_secs,
            ));
        lemma_kv_map_sweep(before.drop_last(), after.drop_last(), now, timeout_secs);
        assert(after.last().0 == before.last().0);
        assert(after.last().1 == spec_sweep_one(before.last().1, now, timeout_secs));
    }
}

/// Immediately after a registration that stored `token` for `client_id`, a
/// heartbeat echoing that token is accepted, and — the pinned policy — a
/// heartbeat echoing any other token is refused.
pub proof fn lemma_register_then_heartbeat(
    clients: Map<Seq<char>, ClientState>,
    client_id: Seq<char>,
    token: Seq<char>,
    other_token: Seq<char>,
)
    requires
        clients.contains_key(client_id),
        clients[client_id].token@ == token,
    ensures
        spec_heartbeat_accepts(clients, client_id, token),
        other_token != token ==> !spec_heartbeat_accepts(clients, client_id, other_token),
{
}

/// The sweep marks exactly the stale online agents offline: an agent's
/// status changes only from online to offline and only when it is stale,
/// every stale online agent does go offline, every other record is left
/// exactly as it was, and no record appears or disappears.
pub proof fn lemma_sweep_marks_exactly_stale(
    clients: Map<Seq<char>, ClientState>,
    now: int,
    timeout_secs: int,
)
    ensures
        spec_swept(clients, now, timeout_secs).dom() =~= clients.dom(),
        forall|id: Seq<char>| #[trigger] clients.contains_key(id)
            && clients[id].status is Online && spec_stale(
            clients[id].last_heartbeat as int,
            now,
            timeout_secs,
        ) ==> spec_swept(clients, now, timeout_secs)[id].status is Offline,
        forall|id: Seq<char>| #[trigger] clients.contains_key(id)
            && !(clients[id].status is Online && spec_stale(
            clients[id].last_heartbeat as int,
            now,
            timeout_secs,
        )) ==> spec_swept(clients, now, timeout_secs)[id] == clients[id],
        forall|id: Seq<char>| #[trigger] clients.contains_key(id)
            ==> spec_swept(clients, now, timeout_secs)[id].last_heartbeat
                == clients[id].last_heartbeat
                && spec_swept(clients, now, timeout_secs)[id].info == clients[id].info
                && spec_swept(clients, now, timeout_secs)[id].token == clients[id].token
                && spec_swept(clients, now, timeout_secs)[id].pending_tasks
                == clients[id].pending_tasks,
{
}

/// Tasks go out in creation order, exactly once: a poll that drains a
/// queue built by enqueues hands the tasks back in the order they were
/// appended — the earlier of any two enqueued tasks comes out earlier —
/// and leaves the queue empty, so no later poll can return them again.
pub proof fn lemma_tasks_delivered_in_order_once(queue: Seq<Task>, earlier: Task, later: Task)
    ensures
        queue.push(earlier).push(later)[queue.len() as int] == earlier,
        queue.push(earlier).push(later)[queue.len() as int + 1] == later,
        queue.push(earlier).push(later).take(queue.len() as int) == queue,
{
    assert(queue.push(earlier).push(later).take(queue.len() as int) =~= queue);
}

} // verus!
