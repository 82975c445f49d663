//! The agent's side of the registration and heartbeat exchange, as a state
//! machine over plain values.
//!
//! The agent starts unregistered, sends a registration, stores the token
//! the coordinator issues, and echoes it on every heartbeat. When a
//! heartbeat is refused it re-registers and retries. The loop that carries
//! the requests over the wire and waits out the intervals lives with the
//! transport plumbing; every decision about what to send, and when a
//! request can be built at all, is made here.

use vstd::prelude::*;
use crate::protocol::{HeartbeatRequest, RegisterRequest, RegisterResponse};
use crate::registry::same_client_info;
use crate::types::{ClientInfo, IptablesRule, ProxyConfig, RelayConfig, SystemMetrics, Task,
    TaskPayload, TaskType};

verus! {

/// Why a request could not be built.
#[derive(Debug, Clone, Copy, PartialEq, Eq, Structural)]
pub enum SessionError {
    /// No token is held: the agent must register first.
    NoToken,
}

/// The agent's registration state: its identity, and the bearer token once
/// the coordinator has issued one.
pub struct RegistrationManager {
    client_info: ClientInfo,
    token: Option<String>,
}

impl RegistrationManager {
    /// The identity this agent presents.
    pub closed spec fn spec_client_info(self) -> ClientInfo {
        self.client_info
    }

    /// The token on hand, if the agent is registered.
    pub closed spec fn spec_token(self) -> Option<Seq<char>> {
        match self.token {
            Some(token) => Some(token@),
            None => None,
        }
    }

    /// A fresh, unregistered session for this identity.
    pub fn new(client_info: ClientInfo) -> (manager: RegistrationManager)
        ensures
            manager.spec_client_info() == client_info,
            manager.spec_token() is None,
    {
        RegistrationManager { client_info, token: None }
    }

    /// Whether the agent holds a token.
    pub fn has_token(&self) -> (held: bool)
        ensures
            held == (self.spec_token() is Some),
    {
        self.token.is_some()
    }

    /// The registration request to send: the agent's identity, nothing
    /// else.
    pub fn register_request(&self) -> (request: RegisterRequest)
        ensures
            same_client_info(request.client_info, self.spec_client_info()),
    {
        RegisterRequest { client_info: crate::registry::clone_client_info(&self.client_info) }
    }

    /// Accepts the coordinator's answer to a registration: from here on the
    /// issued token is echoed on every heartbeat, replacing any earlier
    /// one.
    pub fn on_register_response(&mut self, response: RegisterResponse)
        ensures
            final(self).spec_token() == Some(response.token@),
            final(self).spec_client_info() == old(self).spec_client_info(),
    {
        self.token = Some(response.token);
    }

    /// Drops the held token: the next heartbeat cannot be built until the
    /// agent has re-registered. This is the recovery step after the
    /// coordinator refuses a heartbeat.
    pub fn on_heartbeat_rejected(&mut self)
        ensures
            final(self).spec_token() is None,
            final(self).spec_client_info() == old(self).spec_client_info(),
    {
        self.token = None;
    }

    /// The heartbeat request to send, carrying the agent id, the held
    /// token, and optionally a metrics snapshot; it cannot be built before
    /// a token is held.
    pub fn heartbeat_request(&self, metrics: Option<SystemMetrics>) -> (request: Result<
        HeartbeatRequest,
        SessionError,
    >)
        ensures
            request is Ok <==> self.spec_token() is Some,
            request is Err ==> request->Err_0 == SessionError::NoToken,
            request is Ok ==> request->Ok_0.client_id@ == self.spec_client_info().id@
                && Some(request->Ok_0.token@) == self.spec_token()
                && request->Ok_0.metrics == metrics,
    {
        match &self.token {
            Some(token) => Ok(
                HeartbeatRequest {
                    client_id: self.client_info.id.clone(),
                    token: token.clone(),
                    metrics,
                },
            ),
            None => Err(SessionError::NoToken),
        }
    }

    /// The request for a bare task poll: a heartbeat with no metrics
    /// attached, or nothing when no token is held yet.
    pub fn poll_request(&self) -> (request: Option<HeartbeatRequest>)
        ensures
            request is Some <==> self.spec_token() is Some,
            request is Some ==> request->0.client_id@ == self.spec_client_info().id@
                && Some(request->0.token@) == self.spec_token()
                && request->0.metrics is None,
    {
        match self.heartbeat_request(None) {
            Ok(request) => Some(request),
            Err(_) => None,
        }
    }
}

/// What an agent should do with one delivered task.
pub enum TaskAction {
    /// Start a relay job with this descriptor.
    StartRelay(RelayConfig),
    /// Stop the relay job with this descriptor's identity pair.
    StopRelay(RelayConfig),
    /// Apply this batch of firewall rules, one by one, skipping failures.
    ApplyFirewall(Vec<IptablesRule>),
    /// Reconfigure the local proxy.
    ConfigureProxy(ProxyConfig),
    /// Apply a configuration update.
    UpdateConfig(String),
}

/// Decides what a delivered task asks the agent to do, by its kind; the
/// payload travels with the decision.
pub fn task_action(task: Task) -> (action: TaskAction)
    requires
        task.wf(),
    ensures
        task.task_type == TaskType::StartRelay ==> (action matches TaskAction::StartRelay(config)
            && task.payload == TaskPayload::Relay(config)),
        task.task_type == TaskType::StopRelay ==> (action matches TaskAction::StopRelay(config)
            && task.payload == TaskPayload::Relay(config)),
        task.task_type == TaskType::UpdateIptables ==> (action matches TaskAction::ApplyFirewall(
            rules,
        ) && task.payload == TaskPayload::Firewall(rules)),
        task.task_type == TaskType::ConfigureProxy ==> (action matches TaskAction::ConfigureProxy(
            config,
        ) && task.payload == TaskPayload::Proxy(config)),
        task.task_type == TaskType::UpdateConfig ==> (action matches TaskAction::UpdateConfig(text)
            && task.payload == TaskPayload::Text(text)),
{
    match task.task_type {
        TaskType::StartRelay => {
            match task.payload {
                TaskPayload::Relay(config) => TaskAction::StartRelay(config),
                _ => {
                    proof {
                        assert(false);
                    }
                    TaskAction::UpdateConfig(String::new())
                },
            }
        },
        TaskType::StopRelay => {
            match task.payload {
                TaskPayload::Relay(config) => TaskAction::StopRelay(config),
                _ => {
                    proof {
                        assert(false);
                    }
                    TaskAction::UpdateConfig(String::new())
                },
            }
        },
        TaskType::UpdateIptables => {
            match task.payload {
                TaskPayload::Firewall(rules) => TaskAction::ApplyFirewall(rules),
                _ => {
                    proof {
                        assert(false);
                    }
                    TaskAction::UpdateConfig(String::new())
                },
            }
        },
        TaskType::ConfigureProxy => {
            match task.payload {
                TaskPayload::Proxy(config) => TaskAction::ConfigureProxy(config),
                _ => {
                    proof {
                        assert(false);
                    }
                    TaskAction::UpdateConfig(String::new())
                },
            }
        },
        TaskType::UpdateConfig => {
            match task.payload {
                TaskPayload::Text(text) => TaskAction::UpdateConfig(text),
                _ => {
                    proof {
                        assert(false);
                    }
                    TaskAction::UpdateConfig(String::new())
                },
            }
        },
    }
}

} // verus!
