use cosmwasm_std::{Addr, Uint64};
use croncat::agents::{
    ExecuteMsg,
    AgentTaskResponse, ApprovedAgentAddresses, GetAgentIdsResponse, InstantiateMsg, QueryMsg, TaskStats,
    UpdateConfig,
};
use croncat::tasks::{TasksExecuteMsg, TasksInstantiateMsg, TasksQueryMsg};
use cosmwasm_std::Uint128;
use cw20::Cw20Coin;

#[test]
fn agents_instantiate_msg_clones_equal() {
    let msg = InstantiateMsg {
        pause_admin: Addr::unchecked("pause_admin"),
        version: Some("0.1".to_string()),
        croncat_manager_key: ("manager".to_string(), [0, 1]),
        croncat_tasks_key: ("tasks".to_string(), [0, 1]),
        agent_nomination_duration: Some(10),
        min_tasks_per_agent: Some(3),
        min_coins_for_agent_registration: None,
        agents_eject_threshold: Some(600),
        min_active_agent_count: Some(1),
        public_registration: false,
        allowed_agents: Some(vec!["agent".to_string()]),
    };
    let copy = msg.clone();
    assert_eq!(copy, msg);
    assert_eq!(copy.croncat_manager_key.1, [0, 1]);
}

#[test]
fn update_config_clones_equal() {
    let config = UpdateConfig {
        croncat_manager_key: Some(("new_key".to_string(), [1, 2])),
        croncat_tasks_key: None,
        min_tasks_per_agent: Some(5),
        agent_nomination_duration: None,
        min_coins_for_agent_registration: Some(100),
        agents_eject_threshold: None,
        min_active_agent_count: Some(2),
        public_registration: Some(true),
    };
    assert_eq!(config.clone(), config);
}

#[test]
fn agent_queries_and_responses() {
    let q = QueryMsg::GetAgentIds { from_index: Some(0), limit: Some(10) };
    assert_eq!(q.clone(), QueryMsg::GetAgentIds { from_index: Some(0), limit: Some(10) });
    assert_ne!(QueryMsg::Config {}, QueryMsg::Paused {});
    let ids = GetAgentIdsResponse { active: vec![Addr::unchecked("a")], pending: vec![] };
    assert_eq!(ids.clone().active.len(), 1);
    let approved = ApprovedAgentAddresses { approved_addresses: vec![Addr::unchecked("b")] };
    assert_eq!(approved.clone(), approved);
    let stats = AgentTaskResponse {
        stats: TaskStats { num_block_tasks: Uint64::new(2), num_cron_tasks: Uint64::new(3) },
    };
    assert_eq!(stats.clone().stats.num_cron_tasks, Uint64::new(3));
}

#[test]
fn tasks_instantiate_msg() {
    let msg = TasksInstantiateMsg { manager_addr: "manager".to_string() };
    assert_eq!(msg.clone(), msg);
}

#[test]
fn tasks_queries() {
    let q = TasksQueryMsg::Tasks { from_index: Some(0), limit: Some(20) };
    assert_eq!(q.clone(), q);
    assert_ne!(
        TasksQueryMsg::Task { task_hash: "a".to_string() },
        TasksQueryMsg::Task { task_hash: "b".to_string() }
    );
    assert_eq!(TasksQueryMsg::SlotHashes { slot: None }.clone(), TasksQueryMsg::SlotHashes { slot: None });
}

#[test]
fn agents_execute_messages() {
    let config = UpdateConfig {
        croncat_manager_key: None,
        croncat_tasks_key: None,
        min_tasks_per_agent: Some(2),
        agent_nomination_duration: None,
        min_coins_for_agent_registration: None,
        agents_eject_threshold: None,
        min_active_agent_count: None,
        public_registration: None,
    };
    let msg = ExecuteMsg::UpdateConfig { config: config.clone() };
    assert_eq!(msg.clone(), ExecuteMsg::UpdateConfig { config });
    assert_ne!(ExecuteMsg::PauseContract {}, ExecuteMsg::UnpauseContract {});
    assert_eq!(
        ExecuteMsg::RegisterAgent { payable_account_id: None }.clone(),
        ExecuteMsg::RegisterAgent { payable_account_id: None }
    );
}

#[test]
fn tasks_execute_messages() {
    let refill = TasksExecuteMsg::RefillTaskCw20Balance {
        task_hash: "hash".to_string(),
        cw20_coins: vec![Cw20Coin { address: "token".to_string(), amount: Uint128::new(10) }],
    };
    assert_eq!(refill.clone(), refill);
    assert_ne!(
        TasksExecuteMsg::RemoveTask { task_hash: "hash".to_string() },
        TasksExecuteMsg::RefillTaskBalance { task_hash: "hash".to_string() }
    );
}
