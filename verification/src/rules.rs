//! The cw-rules contract: rule queries that look at balances, NFT ownership
//! and DAO proposals, answered as `(holds, data)` pairs.
//!
//! A rule query validates one address, makes one query to the chain, then
//! answers. The host runs that exchange: `query` maps the query message and the
//! latest event to the next action, so every decision of the contract is made
//! here and is stated in the contracts below.

use vstd::prelude::*;

use cosmwasm_std::StdError;
use crate::coin::{Coin, covers, holds_all, has_native_balance};
use crate::cosmwasm::{
    amount_json, coin_json, rule_response_json, amount_to_binary, coin_to_binary,
    rule_response_to_binary, optional_bytes,
};
use crate::response::{Response, single_attribute, with_attribute};

verus! {

/// The name under which the contract records its version.
pub const CONTRACT_NAME: &'static str = "crates.io:cw-rules";

/// A rule answer: whether the rule holds, and the data it reports.
pub type RuleResponse = (bool, Option<Vec<u8>>);

/// A cw20 token amount held at a verified token contract.
#[derive(Clone, Debug, PartialEq)]
pub struct Cw20CoinVerified {
    pub address: String,
    pub amount: u128,
}

/// A list of native coins.
#[derive(Clone, Debug, PartialEq)]
pub struct NativeBalance(pub Vec<Coin>);

/// A required balance: native coins, or an amount of one cw20 token.
#[derive(Clone, Debug, PartialEq)]
pub enum Balance {
    Native(NativeBalance),
    Cw20(Cw20CoinVerified),
}

/// The status of a DAO proposal.
#[derive(PartialEq, Eq, Structural, Clone, Copy, Debug)]
pub enum Status {
    Open,
    Rejected,
    Passed,
    Executed,
    Closed,
    ExecutionFailed,
}

/// Rule queries of the contract.
#[derive(Clone, Debug, PartialEq)]
pub enum QueryMsg {
    /// The native balance of `address` in `denom`.
    GetBalance { address: String, denom: String },
    /// The balance of `address` at the cw20 token `cw20_contract`.
    GetCW20Balance { cw20_contract: String, address: String },
    /// Whether `address` holds at least `required_balance`.
    HasBalanceGT { address: String, required_balance: Balance },
    /// Whether `address` owns the token `token_id` of `nft_address`.
    CheckOwnerOfNFT { address: String, nft_address: String, token_id: String },
    /// Whether proposal `proposal_id` of `dao_address` has passed.
    CheckProposalReadyToExec { dao_address: String, proposal_id: u64 },
}

/// Execute messages of the contract.
#[derive(Clone, Debug, PartialEq)]
pub enum ExecuteMsg {
    /// Answers with a `query_result` response.
    QueryResult {},
}

/// The version record that instantiation stores.
#[derive(Clone, Debug, PartialEq)]
pub struct ContractVersion {
    pub contract: String,
    pub version: String,
}

/// A query the host makes to the chain on behalf of a rule query.
#[derive(Clone, Debug, PartialEq)]
pub enum ChainQuery {
    /// The bank balance of `address` in `denom`.
    Balance { address: String, denom: String },
    /// All bank balances of `address`.
    AllBalances { address: String },
    /// The cw20 `Balance { address }` query to the token contract `contract`.
    Cw20Balance { contract: String, address: String },
    /// The cw721 `OwnerOf { token_id, include_expired }` query to `contract`.
    NftOwner { contract: String, token_id: String, include_expired: Option<bool> },
    /// The DAO `Proposal { proposal_id }` query to `contract`.
    Proposal { contract: String, proposal_id: u64 },
}

/// What the chain answered to a `ChainQuery`, in the same order of variants.
#[derive(Clone, Debug, PartialEq)]
pub enum ChainReply {
    Balance(Coin),
    AllBalances(Vec<Coin>),
    Cw20Balance(u128),
    NftOwner(String),
    Proposal(Status),
}

/// What happened last in the exchange of a rule query.
#[derive(Debug, PartialEq)]
pub enum QueryEvent {
    /// The query has just arrived.
    Start,
    /// The address the contract asked for was validated (the validated address)
    /// or refused (the error).
    AddressChecked(Result<String, StdError>),
    /// The chain answered the query the contract asked for, or failed.
    Replied(Result<ChainReply, StdError>),
}

/// What the host does next for a rule query.
#[derive(Debug, PartialEq)]
pub enum QueryAction {
    /// Validate this address.
    ValidateAddress(String),
    /// Make this query to the chain.
    Query(ChainQuery),
    /// Answer the rule query with these bytes, or fail with this error.
    Respond(Result<Vec<u8>, StdError>),
}

/// The address a rule query validates before it queries the chain.
pub open spec fn address_checked_by(msg: QueryMsg) -> Seq<char> {
    match msg {
        QueryMsg::GetBalance { address, .. } => address@,
        QueryMsg::GetCW20Balance { cw20_contract, .. } => cw20_contract@,
        QueryMsg::HasBalanceGT { address, .. } => address@,
        QueryMsg::CheckOwnerOfNFT { nft_address, .. } => nft_address@,
        QueryMsg::CheckProposalReadyToExec { dao_address, .. } => dao_address@,
    }
}

/// `q` is the chain query that `msg` makes once its address validated as `valid`.
pub open spec fn query_for(msg: QueryMsg, valid: Seq<char>, q: ChainQuery) -> bool {
    match msg {
        QueryMsg::GetBalance { denom, .. } =>
            q matches ChainQuery::Balance { address: a, denom: d } && a@ == valid && d@ == denom@,
        QueryMsg::GetCW20Balance { address, .. } =>
            q matches ChainQuery::Cw20Balance { contract: c, address: a } && c@ == valid && a@ == address@,
        QueryMsg::HasBalanceGT { address, required_balance } => match required_balance {
            Balance::Native(_) => q matches ChainQuery::AllBalances { address: a } && a@ == valid,
            Balance::Cw20(required) =>
                q matches ChainQuery::Cw20Balance { contract: c, address: a }
                    && c@ == required.address@ && a@ == address@,
        },
        QueryMsg::CheckOwnerOfNFT { token_id, .. } =>
            q matches ChainQuery::NftOwner { contract: c, token_id: t, include_expired: e }
                && c@ == valid && t@ == token_id@ && e is None,
        QueryMsg::CheckProposalReadyToExec { proposal_id, .. } =>
            q matches ChainQuery::Proposal { contract: c, proposal_id: p } && c@ == valid && p == proposal_id,
    }
}

/// `reply` is of the kind that answers the chain query of `msg`.
pub open spec fn reply_fits(msg: QueryMsg, reply: ChainReply) -> bool {
    match msg {
        QueryMsg::GetBalance { .. } => reply is Balance,
        QueryMsg::GetCW20Balance { .. } => reply is Cw20Balance,
        QueryMsg::HasBalanceGT { required_balance, .. } => match required_balance {
            Balance::Native(_) => reply is AllBalances,
            Balance::Cw20(_) => reply is Cw20Balance,
        },
        QueryMsg::CheckOwnerOfNFT { .. } => reply is NftOwner,
        QueryMsg::CheckProposalReadyToExec { .. } => reply is Proposal,
    }
}

/// Whether `reply` is of the kind that answers the chain query of `msg`; the
/// host checks this before it hands a reply to `query`.
pub fn reply_matches(msg: &QueryMsg, reply: &ChainReply) -> (r: bool)
    ensures
        r == reply_fits(*msg, *reply),
{
    match msg {
        QueryMsg::GetBalance { .. } => matches!(reply, ChainReply::Balance(_)),
        QueryMsg::GetCW20Balance { .. } => matches!(reply, ChainReply::Cw20Balance(_)),
        QueryMsg::HasBalanceGT { required_balance, .. } => match required_balance {
            Balance::Native(_) => matches!(reply, ChainReply::AllBalances(_)),
            Balance::Cw20(_) => matches!(reply, ChainReply::Cw20Balance(_)),
        },
        QueryMsg::CheckOwnerOfNFT { .. } => matches!(reply, ChainReply::NftOwner(_)),
        QueryMsg::CheckProposalReadyToExec { .. } => matches!(reply, ChainReply::Proposal(_)),
    }
}

/// The rule answer `(holds, data)` of `msg` given the chain's `reply`.
pub open spec fn rule_answer(msg: QueryMsg, reply: ChainReply) -> (bool, Option<Seq<u8>>) {
    match (msg, reply) {
        (QueryMsg::GetBalance { .. }, ChainReply::Balance(coin)) =>
            (true, Some(coin_json(coin.denom@, coin.amount))),
        (QueryMsg::GetCW20Balance { .. }, ChainReply::Cw20Balance(amount)) =>
            (true, if amount == 0 { None } else { Some(amount_json(amount)) }),
        (QueryMsg::HasBalanceGT { required_balance: Balance::Native(required), .. }, ChainReply::AllBalances(held)) =>
            (holds_all(held@, required.0@), None),
        (QueryMsg::HasBalanceGT { required_balance: Balance::Cw20(required), .. }, ChainReply::Cw20Balance(held)) =>
            (held >= required.amount, None),
        (QueryMsg::CheckOwnerOfNFT { address, .. }, ChainReply::NftOwner(owner)) =>
            (address@ == owner@, None),
        (QueryMsg::CheckProposalReadyToExec { .. }, ChainReply::Proposal(status)) =>
            (status == Status::Passed, None),
        _ => (false, None),
    }
}

/// `action` answers with the serialized rule answer `answer`.
pub open spec fn responds_with(action: QueryAction, answer: (bool, Option<Seq<u8>>)) -> bool {
    action matches QueryAction::Respond(Ok(bytes)) && bytes@ == rule_response_json(answer.0, answer.1)
}

/// The next step of a rule query.
///
/// On arrival the query asks to validate one address; a refused address, or a
/// failed chain query, is answered with that same error; a validated address
/// leads to exactly one chain query; the chain's reply is answered with the
/// serialized rule answer.
pub fn query(msg: &QueryMsg, event: QueryEvent) -> (action: QueryAction)
    requires
        event matches QueryEvent::Replied(Ok(reply)) ==> reply_fits(*msg, reply),
    ensures
        event is Start ==> (action matches QueryAction::ValidateAddress(a) && a@ == address_checked_by(*msg)),
        event matches QueryEvent::AddressChecked(Err(e)) ==> action == QueryAction::Respond(Err(e)),
        event matches QueryEvent::AddressChecked(Ok(valid)) ==>
            (action matches QueryAction::Query(q) && query_for(*msg, valid@, q)),
        event matches QueryEvent::Replied(Err(e)) ==> action == QueryAction::Respond(Err(e)),
        event matches QueryEvent::Replied(Ok(reply)) ==> responds_with(action, rule_answer(*msg, reply)),
{
    match event {
        QueryEvent::Start => QueryAction::ValidateAddress(address_to_validate(msg)),
        QueryEvent::AddressChecked(Err(e)) => QueryAction::Respond(Err(e)),
        QueryEvent::AddressChecked(Ok(valid)) => QueryAction::Query(chain_query(msg, valid)),
        QueryEvent::Replied(Err(e)) => QueryAction::Respond(Err(e)),
        QueryEvent::Replied(Ok(reply)) => {
            match answer_rule(msg, reply) {
                Err(e) => QueryAction::Respond(Err(e)),
                Ok(resp) => {
                    let (holds, data) = resp;
                    QueryAction::Respond(rule_response_to_binary(holds, data))
                },
            }
        },
    }
}

/// The address that `msg` validates first.
fn address_to_validate(msg: &QueryMsg) -> (a: String)
    ensures
        a@ == address_checked_by(*msg),
{
    match msg {
        QueryMsg::GetBalance { address, .. } => address.clone(),
        QueryMsg::GetCW20Balance { cw20_contract, .. } => cw20_contract.clone(),
        QueryMsg::HasBalanceGT { address, .. } => address.clone(),
        QueryMsg::CheckOwnerOfNFT { nft_address, .. } => nft_address.clone(),
        QueryMsg::CheckProposalReadyToExec { dao_address, .. } => dao_address.clone(),
    }
}

/// The chain query that `msg` makes once its address validated as `valid`.
fn chain_query(msg: &QueryMsg, valid: String) -> (q: ChainQuery)
    ensures
        query_for(*msg, valid@, q),
{
    match msg {
        QueryMsg::GetBalance { denom, .. } => ChainQuery::Balance { address: valid, denom: denom.clone() },
        QueryMsg::GetCW20Balance { address, .. } =>
            ChainQuery::Cw20Balance { contract: valid, address: address.clone() },
        QueryMsg::HasBalanceGT { address, required_balance } => match required_balance {
            Balance::Native(_) => ChainQuery::AllBalances { address: valid },
            Balance::Cw20(required) =>
                ChainQuery::Cw20Balance { contract: required.address.clone(), address: address.clone() },
        },
        QueryMsg::CheckOwnerOfNFT { token_id, .. } =>
            ChainQuery::NftOwner { contract: valid, token_id: token_id.clone(), include_expired: None },
        QueryMsg::CheckProposalReadyToExec { proposal_id, .. } =>
            ChainQuery::Proposal { contract: valid, proposal_id: *proposal_id },
    }
}

/// The rule answer of `msg` for the chain's `reply`, before serialization.
fn answer_rule(msg: &QueryMsg, reply: ChainReply) -> (r: Result<RuleResponse, StdError>)
    requires
        reply_fits(*msg, reply),
    ensures
        r matches Ok(resp) && resp.0 == rule_answer(*msg, reply).0
            && optional_bytes(resp.1) == rule_answer(*msg, reply).1,
{
    match (msg, reply) {
        (QueryMsg::GetBalance { .. }, ChainReply::Balance(coin)) => Ok(query_get_balance(&coin)),
        (QueryMsg::GetCW20Balance { .. }, ChainReply::Cw20Balance(amount)) => query_get_cw20_balance(amount),
        (QueryMsg::HasBalanceGT { required_balance, .. }, reply) => Ok(query_has_balance_gt(required_balance, &reply)),
        (QueryMsg::CheckOwnerOfNFT { address, .. }, ChainReply::NftOwner(owner)) =>
            Ok(query_check_owner_nft(address, &owner)),
        (QueryMsg::CheckProposalReadyToExec { .. }, ChainReply::Proposal(status)) =>
            Ok(query_dao_proposal_ready(status)),
        _ => {
            proof {
                assert(false);
            }
            Ok((false, None))
        },
    }
}

/// The `GetBalance` rule: always holds, and reports the serialized coin.
pub fn query_get_balance(coin: &Coin) -> (r: RuleResponse)
    ensures
        r.0,
        optional_bytes(r.1) == Some(coin_json(coin.denom@, coin.amount)),
{
    (true, coin_to_binary(&coin.denom, coin.amount))
}

/// The `GetCW20Balance` rule: always holds, and reports the serialized
/// balance, or nothing when the balance is zero.
pub fn query_get_cw20_balance(balance: u128) -> (r: Result<RuleResponse, StdError>)
    ensures
        r matches Ok(resp) && resp.0
            && optional_bytes(resp.1) == (if balance == 0 { None } else { Some(amount_json(balance)) }),
{
    let amount = if balance == 0 {
        None
    } else {
        match amount_to_binary(balance) {
            Ok(bytes) => Some(bytes),
            Err(e) => {
                return Err(e);
            },
        }
    };
    Ok((true, amount))
}

/// The `HasBalanceGT` rule: native coins hold when every non-zero required
/// coin is covered by the held balances; a cw20 amount holds when the held
/// token balance is at least the required amount. Reports no data.
pub fn query_has_balance_gt(required_balance: &Balance, reply: &ChainReply) -> (r: RuleResponse)
    requires
        match required_balance {
            Balance::Native(_) => reply is AllBalances,
            Balance::Cw20(_) => reply is Cw20Balance,
        },
    ensures
        r.1 is None,
        match (*required_balance, *reply) {
            (Balance::Native(required), ChainReply::AllBalances(held)) => r.0 == holds_all(held@, required.0@),
            (Balance::Cw20(required), ChainReply::Cw20Balance(held)) => r.0 == (held >= required.amount),
            _ => false,
        },
{
    let res = match (required_balance, reply) {
        (Balance::Native(required_native), ChainReply::AllBalances(balances)) =>
            has_native_balance(balances, &required_native.0),
        (Balance::Cw20(required_cw20), ChainReply::Cw20Balance(balance)) => *balance >= required_cw20.amount,
        _ => {
            proof {
                assert(false);
            }
            false
        },
    };
    (res, None)
}

/// The `CheckOwnerOfNFT` rule: holds when `address` is the token's `owner`.
/// Reports no data.
pub fn query_check_owner_nft(address: &String, owner: &String) -> (r: RuleResponse)
    ensures
        r.0 == (address@ == owner@),
        r.1 is None,
{
    (*address == *owner, None)
}

/// The `CheckProposalReadyToExec` rule: holds when the proposal has passed.
/// Reports no data.
pub fn query_dao_proposal_ready(status: Status) -> (r: RuleResponse)
    ensures
        r.0 == (status == Status::Passed),
        r.1 is None,
{
    let passed = match status {
        Status::Passed => true,
        _ => false,
    };
    (passed, None)
}

/// The balance lookups `GetBalance` and `GetCW20Balance` always hold; they
/// only report data.
pub proof fn lemma_balance_lookups_hold(msg: QueryMsg, reply: ChainReply)
    requires
        msg is GetBalance || msg is GetCW20Balance,
        reply_fits(msg, reply),
    ensures
        rule_answer(msg, reply).0,
{
}

/// The checks `HasBalanceGT`, `CheckOwnerOfNFT` and `CheckProposalReadyToExec`
/// never report data, whether they hold or not.
pub proof fn lemma_checks_report_no_data(msg: QueryMsg, reply: ChainReply)
    requires
        !(msg is GetBalance || msg is GetCW20Balance),
    ensures
        rule_answer(msg, reply).1 is None,
{
}

/// `GetCW20Balance` reports data exactly when the held balance is not zero.
pub proof fn lemma_cw20_data_iff_nonzero(msg: QueryMsg, amount: u128)
    requires
        msg is GetCW20Balance,
    ensures
        rule_answer(msg, ChainReply::Cw20Balance(amount)).1 is Some <==> amount != 0,
{
}

/// A required cw20 amount of zero is held whatever the balance.
pub proof fn lemma_zero_cw20_requirement_holds(msg: QueryMsg, held: u128)
    requires
        msg matches QueryMsg::HasBalanceGT { required_balance: Balance::Cw20(required), .. } && required.amount == 0,
    ensures
        rule_answer(msg, ChainReply::Cw20Balance(held)).0,
{
}

/// `CheckOwnerOfNFT` holds exactly when the token's owner is the queried
/// `address`; the NFT contract address and the token id play no part in it.
pub proof fn lemma_owner_check_compares_address(
    address: String,
    nft_address: String,
    token_id: String,
    owner: String,
)
    ensures
        rule_answer(
            QueryMsg::CheckOwnerOfNFT { address, nft_address, token_id },
            ChainReply::NftOwner(owner),
        ).0 <==> address@ == owner@,
        address@ == owner@ ==> rule_answer(
            QueryMsg::CheckOwnerOfNFT { address, nft_address, token_id },
            ChainReply::NftOwner(owner),
        ).0,
{
}

/// `CheckProposalReadyToExec` holds exactly when the proposal has passed; an
/// open, rejected, executed, closed or failed proposal is not ready.
pub proof fn lemma_proposal_ready_only_when_passed(dao_address: String, proposal_id: u64, status: Status)
    ensures
        rule_answer(
            QueryMsg::CheckProposalReadyToExec { dao_address, proposal_id },
            ChainReply::Proposal(status),
        ).0 <==> status is Passed,
        !rule_answer(
            QueryMsg::CheckProposalReadyToExec { dao_address, proposal_id },
            ChainReply::Proposal(Status::Open),
        ).0,
{
}

/// `HasBalanceGT` with a cw20 requirement holds exactly when the held token
/// balance is at least the required amount; holding exactly that amount is enough.
pub proof fn lemma_cw20_requirement_at_least(address: String, token: String, required: u128, held: u128)
    ensures
        rule_answer(
            QueryMsg::HasBalanceGT {
                address,
                required_balance: Balance::Cw20(Cw20CoinVerified { address: token, amount: required }),
            },
            ChainReply::Cw20Balance(held),
        ).0 <==> held >= required,
        rule_answer(
            QueryMsg::HasBalanceGT {
                address,
                required_balance: Balance::Cw20(Cw20CoinVerified { address: token, amount: required }),
            },
            ChainReply::Cw20Balance(required),
        ).0,
{
}

/// `HasBalanceGT` with native coins holds exactly when each required coin of
/// non-zero amount, wherever it stands in the list, is covered by the first
/// held coin of its denom; one uncovered coin anywhere makes it fail.
pub proof fn lemma_native_requirement_every_coin(address: String, required: Vec<Coin>, held: Vec<Coin>, k: int)
    ensures
        rule_answer(
            QueryMsg::HasBalanceGT { address, required_balance: Balance::Native(NativeBalance(required)) },
            ChainReply::AllBalances(held),
        ).0 <==> (forall|i: int|
            0 <= i < required@.len() && required@[i].amount != 0 ==> #[trigger] covers(held@, required@[i])),
        0 <= k < required@.len() && required@[k].amount != 0 && !covers(held@, required@[k]) ==> !rule_answer(
            QueryMsg::HasBalanceGT { address, required_balance: Balance::Native(NativeBalance(required)) },
            ChainReply::AllBalances(held),
        ).0,
{
}

/// `GetBalance` always holds and always reports the serialized coin, whatever
/// its amount, zero included.
pub proof fn lemma_balance_always_reported(address: String, denom: String, coin: Coin)
    ensures
        rule_answer(QueryMsg::GetBalance { address, denom }, ChainReply::Balance(coin))
            == (true, Some(coin_json(coin.denom@, coin.amount))),
        rule_answer(QueryMsg::GetBalance { address, denom }, ChainReply::Balance(coin)).1 is Some,
{
}

/// Instantiation: the version record to store under the contract's name, and
/// the response with the attribute `method = instantiate`.
pub fn instantiate(version: &str) -> (r: (ContractVersion, Response<()>))
    ensures
        r.0.contract@ == CONTRACT_NAME@,
        r.0.version@ == version@,
        single_attribute(r.1, "method"@, "instantiate"@),
{
    let record = ContractVersion { contract: String::from_str(CONTRACT_NAME), version: String::from_str(version) };
    (record, with_attribute("method", "instantiate"))
}

/// Dispatches an execute message.
pub fn execute(msg: ExecuteMsg) -> (r: Response<()>)
    ensures
        single_attribute(r, "method"@, "query_result"@),
{
    match msg {
        ExecuteMsg::QueryResult {} => query_result(),
    }
}

/// The response to `QueryResult`: the attribute `method = query_result`.
pub fn query_result() -> (r: Response<()>)
    ensures
        single_attribute(r, "method"@, "query_result"@),
{
    with_attribute("method", "query_result")
}

} // verus!
