//! Submitting a version proposal to a DAO DAO pre-propose module.

use vstd::prelude::*;

use cosmwasm_std::{CosmosMsg, Empty};
use crate::coin::Coin;
use crate::response::{Response, attribute};

verus! {

/// The proposal a pre-propose module accepts.
#[derive(Debug, Clone, PartialEq)]
pub enum ProposeMessage {
    Propose { title: String, description: String, msgs: Vec<CosmosMsg<Empty>> },
}

/// A contract call of the pre-propose module at `contract_addr`: its
/// `Propose { msg: proposal }` execute message, sent with `funds`.
#[derive(Clone, Debug, PartialEq)]
pub struct ProposeExecution {
    pub contract_addr: String,
    pub proposal: ProposeMessage,
    pub funds: Vec<Coin>,
}

/// Builds the response that submits a proposal titled and described as
/// `name` followed by `chain_id`, carrying no messages, to the pre-propose
/// module at `daodao_addr`, with no funds and the attribute
/// `action = create_daodao_proposal`.
pub fn create_daodao_proposal(daodao_addr: String, name: String, chain_id: String, _proposer: String) -> (r: Response<
    ProposeExecution,
>)
    ensures
        r.attributes@.len() == 1,
        r.attributes@[0].key@ == "action"@,
        r.attributes@[0].value@ == "create_daodao_proposal"@,
        r.messages@.len() == 1,
        r.messages@[0].contract_addr@ == daodao_addr@,
        r.messages@[0].funds@.len() == 0,
        r.messages@[0].proposal matches ProposeMessage::Propose { title, description, msgs }
            && title@ == name@ + chain_id@ && description@ == name@ + chain_id@ && msgs@.len() == 0,
{
    let title = name.clone().concat(chain_id.as_str());
    let description = name.concat(chain_id.as_str());
    let proposal = ProposeMessage::Propose { title, description, msgs: Vec::new() };
    let execution = ProposeExecution { contract_addr: daodao_addr, proposal, funds: Vec::new() };
    let mut messages: Vec<ProposeExecution> = Vec::new();
    messages.push(execution);
    let mut attributes = Vec::new();
    attributes.push(attribute("action", "create_daodao_proposal"));
    Response { messages, attributes }
}

} // verus!
