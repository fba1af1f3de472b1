use eldorado::coin::Coin;
use eldorado::mantaswap::{ExecuteMsg, QueryMsg};
use eldorado::mantaswap_mocks::{execute, query, query_config, QueryAnswer, SENDER_ADDRESS};
use eldorado::response::{Attribute, CosmosMsg};

#[test]
fn mock_swap_pays_min_return() {
    let msg = ExecuteMsg::Swap {
        stages: vec![],
        recipient: Some("contract1".to_string()),
        min_return: Some(vec![Coin::new(420, "ukuji")]),
    };
    let r = execute("alice", &msg).unwrap();
    match &r.messages[0].msg {
        CosmosMsg::BankSend { to_address, amount } => {
            assert_eq!(to_address, "contract1");
            assert_eq!(amount, &vec![Coin::new(420, "ukuji")]);
        }
        other => panic!("unexpected {:?}", other),
    }
    assert_eq!(r.events[0].ty, "transfer");
    assert_eq!(
        r.events[0].attributes,
        vec![
            Attribute::new("amount", "420ukuji"),
            Attribute::new("recipient", "contract1"),
            Attribute::new("sender", SENDER_ADDRESS),
        ]
    );
    assert_eq!(r.events[1].ty, "trade");
    let msg = ExecuteMsg::Swap { stages: vec![], recipient: None, min_return: Some(vec![Coin::new(1, "x")]) };
    match &execute("alice", &msg).unwrap().messages[0].msg {
        CosmosMsg::BankSend { to_address, .. } => assert_eq!(to_address, "alice"),
        other => panic!("unexpected {:?}", other),
    }
}

#[test]
fn mock_queries() {
    assert_eq!(query_config().fee, 42);
    assert!(matches!(query(&QueryMsg::TotalSwaps { week: 1 }), QueryAnswer::TotalSwaps(s) if s.value == 42));
    let msg = ExecuteMsg::UpdateConfig { fee: None, owner: None, treasury: None, blend_oracle_contract: None };
    assert_eq!(execute("a", &msg).unwrap().attributes, vec![Attribute::new("action", "update_config")]);
}
