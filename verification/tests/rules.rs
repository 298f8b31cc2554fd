use cosmwasm_std::StdError;
use croncat::coin::{has_native_balance, Coin};
use croncat::rules::{
    execute, instantiate, query, query_check_owner_nft, query_dao_proposal_ready, query_get_balance,
    query_get_cw20_balance, query_has_balance_gt, query_result, reply_matches, Balance, ChainQuery, ChainReply,
    Cw20CoinVerified, ExecuteMsg, NativeBalance, QueryAction, QueryEvent, QueryMsg, Status, CONTRACT_NAME,
};

fn coin(denom: &str, amount: u128) -> Coin {
    Coin { denom: denom.to_string(), amount }
}

fn native(coins: Vec<Coin>) -> Balance {
    Balance::Native(NativeBalance(coins))
}

fn cw20(address: &str, amount: u128) -> Balance {
    Balance::Cw20(Cw20CoinVerified { address: address.to_string(), amount })
}

fn has_balance_gt(required: Balance) -> QueryMsg {
    QueryMsg::HasBalanceGT { address: "alice".to_string(), required_balance: required }
}

fn answered(msg: &QueryMsg, reply: ChainReply) -> Vec<u8> {
    match query(msg, QueryEvent::Replied(Ok(reply))) {
        QueryAction::Respond(Ok(bytes)) => bytes,
        other => panic!("unexpected action {:?}", other),
    }
}

#[test]
fn instantiate_records_version_and_reports_method() {
    let (record, resp) = instantiate("0.1.0");
    assert_eq!(record.contract, "crates.io:cw-rules");
    assert_eq!(record.contract, CONTRACT_NAME);
    assert_eq!(record.version, "0.1.0");
    assert!(resp.messages.is_empty());
    assert_eq!(resp.attributes.len(), 1);
    assert_eq!(resp.attributes[0].key, "method");
    assert_eq!(resp.attributes[0].value, "instantiate");
}

#[test]
fn execute_query_result_reports_method() {
    let resp = execute(ExecuteMsg::QueryResult {});
    assert!(resp.messages.is_empty());
    assert_eq!(resp.attributes.len(), 1);
    assert_eq!(resp.attributes[0].key, "method");
    assert_eq!(resp.attributes[0].value, "query_result");
    assert_eq!(query_result(), resp);
}

#[test]
fn start_validates_the_right_address() {
    let cases = vec![
        (QueryMsg::GetBalance { address: "alice".to_string(), denom: "uatom".to_string() }, "alice"),
        (QueryMsg::GetCW20Balance { cw20_contract: "token".to_string(), address: "alice".to_string() }, "token"),
        (has_balance_gt(native(vec![])), "alice"),
        (
            QueryMsg::CheckOwnerOfNFT {
                address: "alice".to_string(),
                nft_address: "nft".to_string(),
                token_id: "7".to_string(),
            },
            "nft",
        ),
        (QueryMsg::CheckProposalReadyToExec { dao_address: "dao".to_string(), proposal_id: 3 }, "dao"),
    ];
    for (msg, expected) in cases {
        assert_eq!(query(&msg, QueryEvent::Start), QueryAction::ValidateAddress(expected.to_string()));
    }
}

#[test]
fn refused_address_is_answered_with_its_error() {
    let msg = QueryMsg::GetBalance { address: "InVaLiD".to_string(), denom: "uatom".to_string() };
    let err = || StdError::generic_err("Invalid input: address not normalized");
    let action = query(&msg, QueryEvent::AddressChecked(Err(err())));
    assert_eq!(action, QueryAction::Respond(Err(err())));
}

#[test]
fn failed_chain_query_is_answered_with_its_error() {
    let msg = QueryMsg::CheckProposalReadyToExec { dao_address: "dao".to_string(), proposal_id: 3 };
    let err = || StdError::generic_err("proposal not found");
    let action = query(&msg, QueryEvent::Replied(Err(err())));
    assert_eq!(action, QueryAction::Respond(Err(err())));
}

#[test]
fn validated_address_leads_to_one_chain_query() {
    let get_balance = QueryMsg::GetBalance { address: "alice".to_string(), denom: "uatom".to_string() };
    assert_eq!(
        query(&get_balance, QueryEvent::AddressChecked(Ok("alice".to_string()))),
        QueryAction::Query(ChainQuery::Balance { address: "alice".to_string(), denom: "uatom".to_string() })
    );
    let cw20_balance = QueryMsg::GetCW20Balance { cw20_contract: "token".to_string(), address: "alice".to_string() };
    assert_eq!(
        query(&cw20_balance, QueryEvent::AddressChecked(Ok("token".to_string()))),
        QueryAction::Query(ChainQuery::Cw20Balance { contract: "token".to_string(), address: "alice".to_string() })
    );
    let native_gt = has_balance_gt(native(vec![coin("uatom", 5)]));
    assert_eq!(
        query(&native_gt, QueryEvent::AddressChecked(Ok("alice".to_string()))),
        QueryAction::Query(ChainQuery::AllBalances { address: "alice".to_string() })
    );
    let cw20_gt = has_balance_gt(cw20("token", 5));
    assert_eq!(
        query(&cw20_gt, QueryEvent::AddressChecked(Ok("alice".to_string()))),
        QueryAction::Query(ChainQuery::Cw20Balance { contract: "token".to_string(), address: "alice".to_string() })
    );
    let nft = QueryMsg::CheckOwnerOfNFT {
        address: "alice".to_string(),
        nft_address: "nft".to_string(),
        token_id: "7".to_string(),
    };
    assert_eq!(
        query(&nft, QueryEvent::AddressChecked(Ok("nft".to_string()))),
        QueryAction::Query(ChainQuery::NftOwner {
            contract: "nft".to_string(),
            token_id: "7".to_string(),
            include_expired: None,
        })
    );
    let dao = QueryMsg::CheckProposalReadyToExec { dao_address: "dao".to_string(), proposal_id: 3 };
    assert_eq!(
        query(&dao, QueryEvent::AddressChecked(Ok("dao".to_string()))),
        QueryAction::Query(ChainQuery::Proposal { contract: "dao".to_string(), proposal_id: 3 })
    );
}

#[test]
fn get_balance_reports_serialized_coin() {
    let (holds, data) = query_get_balance(&coin("uatom", 100));
    assert!(holds);
    assert_eq!(data, Some(br#"{"denom":"uatom","amount":"100"}"#.to_vec()));
}

#[test]
fn get_balance_query_answer_bytes() {
    let msg = QueryMsg::GetBalance { address: "alice".to_string(), denom: "uatom".to_string() };
    let bytes = answered(&msg, ChainReply::Balance(coin("uatom", 100)));
    assert_eq!(bytes, br#"[true,"eyJkZW5vbSI6InVhdG9tIiwiYW1vdW50IjoiMTAwIn0="]"#.to_vec());
}

#[test]
fn cw20_balance_zero_reports_nothing() {
    assert_eq!(query_get_cw20_balance(0), Ok((true, None)));
}

#[test]
fn cw20_balance_nonzero_reports_serialized_amount() {
    assert_eq!(query_get_cw20_balance(555), Ok((true, Some(br#""555""#.to_vec()))));
    let msg = QueryMsg::GetCW20Balance { cw20_contract: "token".to_string(), address: "alice".to_string() };
    assert_eq!(answered(&msg, ChainReply::Cw20Balance(555)), br#"[true,"IjU1NSI="]"#.to_vec());
    assert_eq!(answered(&msg, ChainReply::Cw20Balance(0)), b"[true,null]".to_vec());
}

#[test]
fn native_balance_covers_requirements() {
    let held = vec![coin("uatom", 100), coin("ujuno", 50)];
    assert!(has_native_balance(&held, &vec![coin("uatom", 100)]));
    assert!(has_native_balance(&held, &vec![coin("uatom", 99), coin("ujuno", 50)]));
    assert!(!has_native_balance(&held, &vec![coin("uatom", 101)]));
    assert!(!has_native_balance(&held, &vec![coin("uatom", 1), coin("ujuno", 51)]));
}

#[test]
fn native_balance_missing_denom_fails() {
    let held = vec![coin("uatom", 100)];
    assert!(!has_native_balance(&held, &vec![coin("uosmo", 1)]));
    assert!(!has_native_balance(&vec![], &vec![coin("uosmo", 1)]));
}

#[test]
fn native_balance_ignores_zero_requirements() {
    let held = vec![coin("uatom", 100)];
    assert!(has_native_balance(&held, &vec![coin("uosmo", 0)]));
    assert!(has_native_balance(&held, &vec![coin("uosmo", 0), coin("uatom", 100)]));
    assert!(has_native_balance(&vec![], &vec![]));
}

#[test]
fn native_balance_only_first_coin_of_a_denom_counts() {
    let held = vec![coin("uatom", 1), coin("uatom", 1000)];
    assert!(!has_native_balance(&held, &vec![coin("uatom", 2)]));
    assert!(has_native_balance(&held, &vec![coin("uatom", 1)]));
}

#[test]
fn has_balance_gt_native_and_cw20() {
    let held = ChainReply::AllBalances(vec![coin("uatom", 100)]);
    assert_eq!(query_has_balance_gt(&native(vec![coin("uatom", 100)]), &held), (true, None));
    assert_eq!(query_has_balance_gt(&native(vec![coin("uatom", 101)]), &held), (false, None));
    assert_eq!(query_has_balance_gt(&cw20("token", 10), &ChainReply::Cw20Balance(10)), (true, None));
    assert_eq!(query_has_balance_gt(&cw20("token", 10), &ChainReply::Cw20Balance(9)), (false, None));
    assert_eq!(query_has_balance_gt(&cw20("token", 0), &ChainReply::Cw20Balance(0)), (true, None));
}

#[test]
fn has_balance_gt_query_answer_bytes() {
    let msg = has_balance_gt(native(vec![coin("uatom", 5)]));
    assert_eq!(answered(&msg, ChainReply::AllBalances(vec![coin("uatom", 5)])), b"[true,null]".to_vec());
    assert_eq!(answered(&msg, ChainReply::AllBalances(vec![coin("uatom", 4)])), b"[false,null]".to_vec());
}

#[test]
fn nft_owner_check() {
    assert_eq!(query_check_owner_nft(&"alice".to_string(), &"alice".to_string()), (true, None));
    assert_eq!(query_check_owner_nft(&"alice".to_string(), &"bob".to_string()), (false, None));
    let msg = QueryMsg::CheckOwnerOfNFT {
        address: "alice".to_string(),
        nft_address: "nft".to_string(),
        token_id: "7".to_string(),
    };
    assert_eq!(answered(&msg, ChainReply::NftOwner("bob".to_string())), b"[false,null]".to_vec());
}

#[test]
fn proposal_ready_only_when_passed() {
    assert_eq!(query_dao_proposal_ready(Status::Passed), (true, None));
    for status in [Status::Open, Status::Rejected, Status::Executed, Status::Closed, Status::ExecutionFailed] {
        assert_eq!(query_dao_proposal_ready(status), (false, None));
    }
    let msg = QueryMsg::CheckProposalReadyToExec { dao_address: "dao".to_string(), proposal_id: 3 };
    assert_eq!(answered(&msg, ChainReply::Proposal(Status::Passed)), b"[true,null]".to_vec());
}

#[test]
fn native_requirements_split() {
    let held = vec![coin("uatom", 100), coin("ujuno", 50)];
    let first = vec![coin("uatom", 100)];
    let second = vec![coin("ujuno", 51)];
    let joined: Vec<Coin> = first.iter().chain(second.iter()).cloned().collect();
    assert!(has_native_balance(&held, &first));
    assert!(!has_native_balance(&held, &second));
    assert!(!has_native_balance(&held, &joined));
}

#[test]
fn reply_kinds_match_queries() {
    let get_balance = QueryMsg::GetBalance { address: "alice".to_string(), denom: "uatom".to_string() };
    assert!(reply_matches(&get_balance, &ChainReply::Balance(coin("uatom", 1))));
    assert!(!reply_matches(&get_balance, &ChainReply::Cw20Balance(1)));
    let cw20_gt = has_balance_gt(cw20("token", 5));
    assert!(reply_matches(&cw20_gt, &ChainReply::Cw20Balance(1)));
    assert!(!reply_matches(&cw20_gt, &ChainReply::AllBalances(vec![])));
    let native_gt = has_balance_gt(native(vec![]));
    assert!(reply_matches(&native_gt, &ChainReply::AllBalances(vec![])));
    let dao = QueryMsg::CheckProposalReadyToExec { dao_address: "dao".to_string(), proposal_id: 3 };
    assert!(reply_matches(&dao, &ChainReply::Proposal(Status::Open)));
    assert!(!reply_matches(&dao, &ChainReply::NftOwner("x".to_string())));
}
