use croncat::daodao::{create_daodao_proposal, ProposeMessage};

#[test]
fn proposal_is_titled_with_name_and_chain() {
    let resp = create_daodao_proposal(
        "dao_pre_propose".to_string(),
        "croncat-manager".to_string(),
        "juno-1".to_string(),
        "proposer".to_string(),
    );
    assert_eq!(resp.attributes.len(), 1);
    assert_eq!(resp.attributes[0].key, "action");
    assert_eq!(resp.attributes[0].value, "create_daodao_proposal");
    assert_eq!(resp.messages.len(), 1);
    let execution = &resp.messages[0];
    assert_eq!(execution.contract_addr, "dao_pre_propose");
    assert!(execution.funds.is_empty());
    match &execution.proposal {
        ProposeMessage::Propose { title, description, msgs } => {
            assert_eq!(title, "croncat-managerjuno-1");
            assert_eq!(description, "croncat-managerjuno-1");
            assert!(msgs.is_empty());
        }
    }
}

#[test]
fn proposal_with_empty_name_and_chain() {
    let resp = create_daodao_proposal(String::new(), String::new(), String::new(), String::new());
    match &resp.messages[0].proposal {
        ProposeMessage::Propose { title, description, .. } => {
            assert_eq!(title, "");
            assert_eq!(description, "");
        }
    }
    assert_eq!(resp.messages[0].contract_addr, "");
}
