//! Messages of the agents contract.

use vstd::prelude::*;

use cosmwasm_std::{Addr, Uint64};

verus! {

/// Instantiation parameters of the agents contract.
#[derive(Debug, PartialEq)]
pub struct InstantiateMsg {
    /// A multisig admin whose sole responsibility is to pause the contract in event of emergency.
    /// Must be a different contract address than DAO, cannot be a regular keypair.
    /// Does not have the ability to unpause, must rely on the DAO to assess the situation and act accordingly.
    pub pause_admin: Addr,
    /// CW2 version provided by the factory.
    pub version: Option<String>,
    /// Name of the key for raw querying the Manager address from the factory.
    pub croncat_manager_key: (String, [u8; 2]),
    /// Name of the key for raw querying the Tasks address from the factory.
    pub croncat_tasks_key: (String, [u8; 2]),
    /// The time a pending agent has to become active once nominated; the longer a
    /// pending agent waits, the more pending agents can become active.
    pub agent_nomination_duration: Option<u16>,
    /// The ratio of tasks to active agents: with "3", 4 tasks are needed before
    /// another agent may become active.
    pub min_tasks_per_agent: Option<u64>,
    /// The amount needed to execute a few tasks before withdrawing profits.
    pub min_coins_for_agent_registration: Option<u64>,
    /// How many slots an agent can miss before being removed from the active queue.
    pub agents_eject_threshold: Option<u64>,
    /// Minimum agent count in the active queue that the bad agent verifier leaves untouched.
    pub min_active_agent_count: Option<u16>,
    /// Whether agent registration is public or restricted to an internal whitelist.
    pub public_registration: bool,
    /// If registration is not public, the initially approved agent addresses.
    pub allowed_agents: Option<Vec<String>>,
}

/// Execute messages of the agents contract. The notifications the tasks
/// contract sends when a task is created or completed are not part of this
/// type: the types they carry are not available here.
#[derive(Clone, Debug, PartialEq)]
pub enum ExecuteMsg {
    /// Adds an agent address to the internal whitelist.
    AddAgentToWhitelist { agent_address: String },
    /// Removes an agent from the whitelist; the agent is not kicked, but cannot register again.
    RemoveAgentFromWhitelist { agent_address: String },
    /// Registers a new agent.
    RegisterAgent { payable_account_id: Option<String> },
    /// Updates an agent.
    UpdateAgent { payable_account_id: String },
    /// Moves an agent from the pending to the active list.
    CheckInAgent {},
    /// Removes an agent from the system.
    UnregisterAgent { from_behind: Option<bool> },
    /// Updates the agent contract configuration.
    UpdateConfig { config: UpdateConfig },
    /// Removes inactive agents and runs other internal periodic work.
    Tick {},
    /// Pauses all operations; only the pause admin may.
    PauseContract {},
    /// Unpauses all operations; only the owner may.
    UnpauseContract {},
}

/// Queries of the agents contract.
#[derive(Clone, Debug, PartialEq)]
pub enum QueryMsg {
    /// An agent by account id.
    GetAgent { account_id: String },
    /// The ids of active and pending agents, paginated.
    GetAgentIds { from_index: Option<u64>, limit: Option<u64> },
    /// The approved agents' addresses, paginated; only used when registration is not public.
    GetApprovedAgentAddresses { from_index: Option<u64>, limit: Option<u64> },
    /// The task statistics of an agent.
    GetAgentTasks { account_id: String },
    /// The contract configuration.
    Config {},
    /// Whether the contract is paused.
    Paused {},
}

/// Active and pending agents.
#[derive(Clone, Debug, PartialEq)]
pub struct GetAgentIdsResponse {
    /// Active agent list.
    pub active: Vec<Addr>,
    /// Pending agent list.
    pub pending: Vec<Addr>,
}

/// Approved agents' addresses.
#[derive(Clone, Debug, PartialEq)]
pub struct ApprovedAgentAddresses {
    pub approved_addresses: Vec<Addr>,
}

/// Task statistics of an agent.
#[derive(Clone, Debug, PartialEq)]
pub struct TaskStats {
    /// Total block tasks of the agent.
    pub num_block_tasks: Uint64,
    /// Total cron tasks of the agent.
    pub num_cron_tasks: Uint64,
}

/// Task statistics response of an agent.
#[derive(Clone, Debug, PartialEq)]
pub struct AgentTaskResponse {
    pub stats: TaskStats,
}

/// Updatable configuration of the agents contract; `None` leaves a setting unchanged.
#[derive(Debug, PartialEq)]
pub struct UpdateConfig {
    /// Name of the key for raw querying the Manager address from the factory.
    pub croncat_manager_key: Option<(String, [u8; 2])>,
    /// Name of the key for raw querying the Tasks address from the factory.
    pub croncat_tasks_key: Option<(String, [u8; 2])>,
    /// Minimum tasks count to be reached by agent before next agent nomination.
    pub min_tasks_per_agent: Option<u64>,
    /// Duration to be passed before next agent nomination.
    pub agent_nomination_duration: Option<u16>,
    /// Minimum funds to be attached for agent registration.
    pub min_coins_for_agent_registration: Option<u64>,
    /// How many slots an agent can miss before being removed from the active queue.
    pub agents_eject_threshold: Option<u64>,
    /// Minimum agent count in the active queue that the bad agent verifier leaves untouched.
    pub min_active_agent_count: Option<u16>,
    /// Whether agent registration is public or uses the whitelist.
    pub public_registration: Option<bool>,
}

/// A copy of a factory key: its name and its two version bytes.
fn clone_key(key: &(String, [u8; 2])) -> (r: (String, [u8; 2]))
    ensures
        r.0 == key.0,
        r.1 == key.1,
{
    (key.0.clone(), [key.1[0], key.1[1]])
}

/// A copy of an optional factory key.
fn clone_optional_key(key: &Option<(String, [u8; 2])>) -> (r: Option<(String, [u8; 2])>)
    ensures
        r == *key,
{
    match key {
        Some(k) => Some(clone_key(k)),
        None => None,
    }
}

/// A copy of a list of addresses given as text.
fn clone_strings(v: &Vec<String>) -> (r: Vec<String>)
    ensures
        r@ == v@,
{
    let r = v.clone();
    assert forall|i: int| 0 <= i < v.len() implies r@[i] == v@[i] by {
        assert(cloned::<String>(v[i], r[i]));
    }
    assert(r@ =~= v@);
    r
}

impl Clone for InstantiateMsg {
    fn clone(&self) -> (r: Self)
        ensures
            r.pause_admin == self.pause_admin,
            r.version == self.version,
            r.croncat_manager_key == self.croncat_manager_key,
            r.croncat_tasks_key == self.croncat_tasks_key,
            r.agent_nomination_duration == self.agent_nomination_duration,
            r.min_tasks_per_agent == self.min_tasks_per_agent,
            r.min_coins_for_agent_registration == self.min_coins_for_agent_registration,
            r.agents_eject_threshold == self.agents_eject_threshold,
            r.min_active_agent_count == self.min_active_agent_count,
            r.public_registration == self.public_registration,
            match (r.allowed_agents, self.allowed_agents) {
                (Some(copy), Some(original)) => copy@ == original@,
                (None, None) => true,
                _ => false,
            },
    {
        InstantiateMsg {
            pause_admin: self.pause_admin.clone(),
            version: match &self.version {
                Some(v) => Some(v.clone()),
                None => None,
            },
            croncat_manager_key: clone_key(&self.croncat_manager_key),
            croncat_tasks_key: clone_key(&self.croncat_tasks_key),
            agent_nomination_duration: self.agent_nomination_duration,
            min_tasks_per_agent: self.min_tasks_per_agent,
            min_coins_for_agent_registration: self.min_coins_for_agent_registration,
            agents_eject_threshold: self.agents_eject_threshold,
            min_active_agent_count: self.min_active_agent_count,
            public_registration: self.public_registration,
            allowed_agents: match &self.allowed_agents {
                Some(agents) => Some(clone_strings(agents)),
                None => None,
            },
        }
    }
}

impl Clone for UpdateConfig {
    fn clone(&self) -> (r: Self)
        ensures
            r == *self,
    {
        UpdateConfig {
            croncat_manager_key: clone_optional_key(&self.croncat_manager_key),
            croncat_tasks_key: clone_optional_key(&self.croncat_tasks_key),
            min_tasks_per_agent: self.min_tasks_per_agent,
            agent_nomination_duration: self.agent_nomination_duration,
            min_coins_for_agent_registration: self.min_coins_for_agent_registration,
            agents_eject_threshold: self.agents_eject_threshold,
            min_active_agent_count: self.min_active_agent_count,
            public_registration: self.public_registration,
        }
    }
}

} // verus!
