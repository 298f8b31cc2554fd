//! Messages of the tasks contract.

use vstd::prelude::*;

use cw20::Cw20Coin;

verus! {

/// Instantiation parameters of the tasks contract.
#[derive(Clone, Debug, PartialEq)]
pub struct TasksInstantiateMsg {
    pub manager_addr: String,
}

/// Queries of the tasks contract. The query of a task's hash, which takes a
/// whole task, is not part of this type: the task type is not available here.
#[derive(Clone, Debug, PartialEq)]
pub enum TasksQueryMsg {
    /// Tasks, paginated.
    Tasks { from_index: Option<u64>, limit: Option<u64> },
    /// Tasks that carry queries, paginated.
    TasksWithQueries { from_index: Option<u64>, limit: Option<u64> },
    /// Tasks of one owner.
    TasksByOwner { owner_addr: String },
    /// One task by its hash.
    Task { task_hash: String },
    /// The task hashes of a slot.
    SlotHashes { slot: Option<u64> },
    /// Slot ids, paginated.
    SlotIds { from_index: Option<u64>, limit: Option<u64> },
}

/// Execute messages of the tasks contract. Task creation, which takes a task
/// request, is not part of this type: the task request type is not available here.
#[derive(Clone, Debug, PartialEq)]
pub enum TasksExecuteMsg {
    /// Removes the task with this hash.
    RemoveTask { task_hash: String },
    /// Adds the attached native funds to the task's balance.
    RefillTaskBalance { task_hash: String },
    /// Adds cw20 tokens to the task's balance.
    RefillTaskCw20Balance { task_hash: String, cw20_coins: Vec<Cw20Coin> },
}

} // verus!
