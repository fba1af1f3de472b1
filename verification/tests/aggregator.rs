use eldorado::aggregator::{
    add_attributes, execute, instantiate, parse_is_defined, parse_recipient_amount_denom, query,
    transfer_time_holds, try_swap_in, try_swap_out, try_transfer, Config, ExecuteMsg, InstantiateMsg, QueryMsg, State,
};
use eldorado::coin::Coin;
use eldorado::error::{ContractError, StdError};
use eldorado::response::{Attribute, CosmosMsg, Event, SubMsgResponse};
use eldorado::types::RecipientParameters;

fn coin_received(attrs: &[(&str, &str)]) -> Result<SubMsgResponse, String> {
    Ok(SubMsgResponse {
        events: vec![
            Event { ty: "transfer".to_string(), attributes: vec![] },
            Event {
                ty: "coin_received".to_string(),
                attributes: attrs.iter().map(|(k, v)| Attribute::new(k, v)).collect(),
            },
        ],
        data: None,
    })
}

fn state() -> State {
    instantiate("admin", &InstantiateMsg { router_address: "router".to_string() }, &Ok(()))
        .unwrap()
        .0
}

#[test]
fn instantiate_and_query() {
    let s = state();
    assert_eq!(
        query(&s, &QueryMsg::QueryConfig),
        Config { admin: "admin".to_string(), router: "router".to_string(), ibc_timeout: 900 }
    );
}

#[test]
fn stub_swaps_check_funds() {
    assert_eq!(
        try_swap_in(&vec![Coin::new(1, "x")], "vault").unwrap().attributes,
        vec![Attribute::new("action", "try_swap_in")]
    );
    assert_eq!(
        try_swap_in(&vec![], "vault"),
        Err(ContractError::CustomError { val: "No funds sent".to_string() })
    );
    assert_eq!(
        try_swap_out(&vec![Coin::new(1, "x")], "d", "u", &None),
        Err(ContractError::CustomError { val: "Must send reserve token 'ukuji'".to_string() })
    );
    assert!(try_swap_out(&vec![Coin::new(1, "ukuji")], "d", "u", &None).is_ok());
}

#[test]
fn execute_update_config() {
    let mut s = state();
    let r = execute(
        &mut s,
        "admin",
        &vec![],
        ExecuteMsg::UpdateConfig { ibc_timeout_in_mins: Some(5), router_address: Some("owner".to_string()) },
        &Ok(()),
    )
    .unwrap();
    assert_eq!(s.config, Config { admin: "admin".to_string(), router: "owner".to_string(), ibc_timeout: 300 });
    assert_eq!(r.attributes.len(), 3);
    assert_eq!(
        execute(&mut s, "bob", &vec![], ExecuteMsg::UpdateConfig { ibc_timeout_in_mins: None, router_address: None }, &Ok(())),
        Err(ContractError::Unauthorized)
    );
}

#[test]
fn parse_events() {
    assert_eq!(
        parse_recipient_amount_denom(&coin_received(&[("receiver", "c"), ("amount", "420ukuji"), ("receiver", "bob")])),
        Ok(("bob".to_string(), 420, "ukuji".to_string()))
    );
    assert_eq!(
        parse_recipient_amount_denom(&Err("swap failed".to_string())),
        Err(ContractError::CustomError { val: "swap failed".to_string() })
    );
    assert_eq!(
        parse_recipient_amount_denom(&Ok(SubMsgResponse { events: vec![], data: None })),
        Err(ContractError::EventIsNotFound)
    );
    assert_eq!(parse_recipient_amount_denom(&coin_received(&[])), Err(ContractError::AttributeIsNotFound));
    assert_eq!(
        parse_recipient_amount_denom(&coin_received(&[("amount", "ukuji"), ("receiver", "bob")])),
        Err(ContractError::CustomError { val: "Missing amount or non-digit characters in amount".to_string() })
    );
    let r = add_attributes(&coin_received(&[("amount", "7uosmo"), ("receiver", "bob")])).unwrap();
    assert_eq!(
        r.attributes,
        vec![Attribute::new("recipient", "bob"), Attribute::new("amount", "7"), Attribute::new("denom", "uosmo")]
    );
}

#[test]
fn transfer_checks_balance_and_queue() {
    let mut s = state();
    let res = coin_received(&[("amount", "50ukuji"), ("receiver", "c")]);
    assert_eq!(try_transfer(&mut s, 0, &res, &Ok(50)), Err(ContractError::RecipientParametersAreNotFound));
    s.recipient_parameters.push(RecipientParameters {
        recipient_address: "alice".to_string(),
        channel_id: None,
        denom_out: "ukuji".to_string(),
    });
    assert_eq!(
        try_transfer(&mut s, 0, &res, &Ok(49)),
        Err(ContractError::BalanceIsNotEnough { symbol: "ukuji".to_string() })
    );
    assert_eq!(
        try_transfer(&mut s, 0, &res, &Err(StdError::Other { text: "query failed".to_string() })),
        Err(ContractError::Std(StdError::Other { text: "query failed".to_string() }))
    );
    assert_eq!(s.recipient_parameters.len(), 1);
    let t = try_transfer(&mut s, 0, &res, &Ok(50)).unwrap();
    match &t.messages[0].msg {
        CosmosMsg::BankSend { to_address, amount } => {
            assert_eq!(to_address, "alice");
            assert_eq!(amount, &vec![Coin::new(50, "ukuji")]);
        }
        other => panic!("unexpected {:?}", other),
    }
    assert!(s.recipient_parameters.is_empty());
}

#[test]
fn checks_before_reading_answers() {
    assert!(parse_is_defined(&coin_received(&[("amount", "50ukuji"), ("receiver", "c")])));
    assert!(!parse_is_defined(&coin_received(&[("receiver", "c")])));
    assert!(parse_is_defined(&coin_received(&[])));
    assert!(parse_is_defined(&Err("failed".to_string())));
    let mut s = state();
    let res = coin_received(&[("amount", "50ukuji"), ("receiver", "c")]);
    s.recipient_parameters.push(RecipientParameters {
        recipient_address: "osmo1x".to_string(),
        channel_id: Some("channel-1".to_string()),
        denom_out: "ukuji".to_string(),
    });
    assert!(!transfer_time_holds(&s, u64::MAX, &res, &Ok(50)));
    assert!(transfer_time_holds(&s, u64::MAX, &res, &Ok(49)));
    assert!(transfer_time_holds(&s, 0, &res, &Ok(50)));
    let t = try_transfer(&mut s, 3, &res, &Ok(50)).unwrap();
    match &t.messages[0].msg {
        CosmosMsg::IbcTransfer { channel_id, timeout_nanos, .. } => {
            assert_eq!(channel_id, "channel-1");
            assert_eq!(*timeout_nanos, 3 + 900 * 1_000_000_000);
        }
        other => panic!("unexpected {:?}", other),
    }
}
