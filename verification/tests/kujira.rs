use bech32::ToBase32;
use eldorado::coin::Coin;
use eldorado::error::{ContractError, StdError};
use eldorado::kujira::{
    address_to_validate, reply, reply_time_holds, try_instantiate, try_swap_in, try_swap_out, try_update_config,
    verify_ibc_parameters, Config, InstantiateMsg, State, BASE_DENOM, CHAIN_ID_DEV, SWAP_IN_REPLY,
    SWAP_OUT_REPLY,
};
use eldorado::mantaswap::ExecuteMsg;
use eldorado::mantaswap_mocks;
use eldorado::response::{Attribute, CosmosMsg, Event, ReplyOn, SubMsg, SubMsgResponse};
use eldorado::types::RecipientParameters;

const CONTRACT: &str = "contract1";
const ROUTER: &str = "contract0";
/// The chain identifier of the test harness the contract was written against.
const TEST_CHAIN: &str = "cosmos-testnet-14002";

fn swap_msg(amount_out: u128, denom_out: &str, middle: &str, denom_in: &str) -> ExecuteMsg {
    ExecuteMsg::Swap {
        recipient: None,
        min_return: Some(vec![Coin::new(amount_out, denom_out)]),
        stages: vec![
            vec![("contract91".to_string(), middle.to_string())],
            vec![("contract90".to_string(), denom_in.to_string())],
        ],
    }
}

fn new_state() -> State {
    let msg = InstantiateMsg {
        owner_address: "owner".to_string(),
        vault_address: "bob".to_string(),
        router_address: ROUTER.to_string(),
    };
    try_instantiate("admin", &msg, TEST_CHAIN, &Ok(())).unwrap().0
}

/// What the chain hands back after the router paid `amount denom` to the contract.
fn received(amount: u128, denom: &str) -> Result<SubMsgResponse, String> {
    Ok(SubMsgResponse {
        events: vec![Event {
            ty: "coin_received".to_string(),
            attributes: vec![
                Attribute::new("receiver", CONTRACT),
                Attribute::new("amount", &format!("{}{}", amount, denom)),
                Attribute::new("receiver", CONTRACT),
            ],
        }],
        data: None,
    })
}

/// Runs the router's swap and answers its reply, as the chain would.
fn settle(state: &mut State, call: &SubMsg, time: u64) -> eldorado::response::Response {
    assert_eq!(call.reply_on, ReplyOn::Success);
    let (msg, funds) = match &call.msg {
        CosmosMsg::WasmExecute { contract_addr, msg, funds } => {
            assert_eq!(contract_addr, ROUTER);
            (msg.clone(), funds.clone())
        }
        other => panic!("unexpected {:?}", other),
    };
    assert_eq!(funds.len(), 1);
    let answer = mantaswap_mocks::execute(CONTRACT, &msg).unwrap();
    let paid = match &answer.messages[0].msg {
        CosmosMsg::BankSend { to_address, amount } => {
            assert_eq!(to_address, CONTRACT);
            amount[0].clone()
        }
        other => panic!("unexpected {:?}", other),
    };
    reply(state, call.id, time, &received(paid.amount, &paid.denom), &Ok(paid.amount)).unwrap()
}

fn attr<'a>(res: &'a eldorado::response::Response, key: &str) -> &'a str {
    &res.attributes.iter().find(|a| a.key == key).unwrap().value
}

#[test]
fn instantiate_sets_config() {
    let state = new_state();
    assert_eq!(
        state.config,
        Config {
            admin: "admin".to_string(),
            router: ROUTER.to_string(),
            ibc_timeout: 15 * 60,
            chain_id: TEST_CHAIN.to_string(),
        }
    );
    assert!(state.recipient_parameters.is_empty());
    let bad = try_instantiate(
        "admin",
        &InstantiateMsg {
            owner_address: String::new(),
            vault_address: String::new(),
            router_address: "x".to_string(),
        },
        "chain",
        &Err(StdError::GenericErr { msg: "Invalid input".to_string() }),
    );
    assert_eq!(bad, Err(ContractError::Std(StdError::GenericErr { msg: "Invalid input".to_string() })));
}

#[test]
fn swap_in_default() {
    let mut state = new_state();
    let amount_in: u128 = 1_000;
    let amount_out: u128 = 420;
    let msg = swap_msg(amount_out, "ukuji", "factory/uusk", "ibc/ushd");
    let res = try_swap_in(&mut state, CONTRACT, &vec![Coin::new(amount_in, "ibc/ushd")], "bob", &msg, &Ok(()))
        .unwrap();
    assert_eq!(res.messages.len(), 1);
    assert_eq!(res.messages[0].id, SWAP_IN_REPLY);
    assert_eq!(res.messages[0].reply_on, ReplyOn::Success);
    match &res.messages[0].msg {
        CosmosMsg::WasmExecute { msg: ExecuteMsg::Swap { recipient, .. }, funds, .. } => {
            assert_eq!(recipient.as_deref(), Some(CONTRACT));
            assert_eq!(funds, &vec![Coin::new(amount_in, "ibc/ushd")]);
        }
        other => panic!("unexpected {:?}", other),
    }
    assert_eq!(
        state.recipient_parameters,
        vec![RecipientParameters {
            recipient_address: "bob".to_string(),
            channel_id: None,
            denom_out: "ukuji".to_string(),
        }]
    );
    let transfer = settle(&mut state, &res.messages[0], 0);
    assert_eq!(attr(&transfer, "digest"), "420 ukuji bob");
    match &transfer.messages[0].msg {
        CosmosMsg::BankSend { to_address, amount } => {
            assert_eq!(to_address, "bob");
            assert_eq!(amount, &vec![Coin::new(amount_out, "ukuji")]);
        }
        other => panic!("unexpected {:?}", other),
    }
    assert!(state.recipient_parameters.is_empty());
}

#[test]
fn swap_in_without_funds_is_refused() {
    let mut state = new_state();
    let msg = swap_msg(420, "ukuji", "factory/uusk", "ibc/ushd");
    let before = state.clone();
    let res = try_swap_in(&mut state, CONTRACT, &vec![], "bob", &msg, &Ok(()));
    assert_eq!(res, Err(ContractError::CustomError { val: "No funds sent".to_string() }));
    assert_eq!(state, before);
}

#[test]
fn swap_in_wrong_mantaswap_msg_is_refused() {
    let mut state = new_state();
    let addr = Some("admin".to_string());
    let msg = ExecuteMsg::UpdateConfig {
        fee: Some(1),
        owner: addr.clone(),
        treasury: addr.clone(),
        blend_oracle_contract: addr,
    };
    let res = try_swap_in(&mut state, CONTRACT, &vec![Coin::new(1_000, "ibc/ushd")], "bob", &msg, &Ok(()));
    assert_eq!(res.unwrap_err().message(), "Wrong MantaSwap message type!");
    assert!(state.recipient_parameters.is_empty());
}

#[test]
fn swap_out_default() {
    let mut state = new_state();
    let msg = swap_msg(1_000, "factory/uusk", "ibc/ushd", "ukuji");
    let res = try_swap_out(&mut state, CONTRACT, &vec![Coin::new(420, "ukuji")], "alice", &msg, &None, &Ok(()))
        .unwrap();
    assert_eq!(res.messages[0].id, SWAP_OUT_REPLY);
    let transfer = settle(&mut state, &res.messages[0], 0);
    match &transfer.messages[0].msg {
        CosmosMsg::BankSend { to_address, amount } => {
            assert_eq!(to_address, "alice");
            assert_eq!(amount, &vec![Coin::new(1_000, "factory/uusk")]);
        }
        other => panic!("unexpected {:?}", other),
    }
}

#[test]
fn swap_out_multiple_swaps() {
    let mut state = new_state();
    let msg = swap_msg(1_000, "factory/uusk", "ibc/ushd", "ukuji");
    let pairs = vec![("bob", "alice"), ("admin", "owner"), ("bob", "alice")];
    let mut received: Vec<(String, u128)> = vec![];
    let mut pending = vec![];
    for (_sender, recipient) in &pairs {
        let res = try_swap_out(&mut state, CONTRACT, &vec![Coin::new(420, BASE_DENOM)], recipient, &msg, &None, &Ok(()))
            .unwrap();
        pending.push(res.messages[0].clone());
    }
    assert_eq!(state.recipient_parameters.len(), 3);
    for call in &pending {
        let t = settle(&mut state, call, 0);
        if let CosmosMsg::BankSend { to_address, amount } = &t.messages[0].msg {
            received.push((to_address.clone(), amount[0].amount));
        }
    }
    for (_sender, recipient) in &pairs {
        let res = try_swap_out(&mut state, CONTRACT, &vec![Coin::new(420, BASE_DENOM)], recipient, &msg, &None, &Ok(()))
            .unwrap();
        let t = settle(&mut state, &res.messages[0], 100_000);
        if let CosmosMsg::BankSend { to_address, amount } = &t.messages[0].msg {
            received.push((to_address.clone(), amount[0].amount));
        }
    }
    let alice: u128 = received.iter().filter(|(a, _)| a == "alice").map(|(_, v)| v).sum();
    let owner: u128 = received.iter().filter(|(a, _)| a == "owner").map(|(_, v)| v).sum();
    assert_eq!(alice, 1_000 * 4);
    assert_eq!(owner, 1_000 * 2);
    // served in the order they were asked for
    assert_eq!(received[0].0, "alice");
    assert_eq!(received[1].0, "owner");
    assert_eq!(received[2].0, "alice");
    assert!(state.recipient_parameters.is_empty());
}

#[test]
fn swap_out_wrong_denom_in_is_refused() {
    let mut state = new_state();
    let msg = swap_msg(1_000, "factory/uusk", "ukuji", "ibc/ushd");
    let res = try_swap_out(&mut state, CONTRACT, &vec![Coin::new(420, "ibc/ushd")], "alice", &msg, &None, &Ok(()));
    assert_eq!(
        res,
        Err(ContractError::CustomError { val: "Must send reserve token 'ukuji'".to_string() })
    );
}

#[test]
fn swap_out_ibc_token_without_ibc_channel() {
    let mut state = new_state();
    let msg = swap_msg(1_000, "ibc/ushd", "factory/uusk", "ukuji");
    let res = try_swap_out(&mut state, CONTRACT, &vec![Coin::new(420, "ukuji")], "alice", &msg, &None, &Ok(()))
        .unwrap();
    let transfer = settle(&mut state, &res.messages[0], 0);
    match &transfer.messages[0].msg {
        CosmosMsg::BankSend { to_address, amount } => {
            assert_eq!(to_address, "alice");
            assert_eq!(amount, &vec![Coin::new(1_000, "ibc/ushd")]);
        }
        other => panic!("unexpected {:?}", other),
    }
}

#[test]
fn swap_out_ibc_channel_without_ibc_token_is_refused() {
    let mut state = new_state();
    let msg = swap_msg(1_000, "factory/uusk", "ibc/ushd", "ukuji");
    let res = try_swap_out(
        &mut state,
        CONTRACT,
        &vec![Coin::new(420, "ukuji")],
        "alice",
        &msg,
        &Some("channel-0".to_string()),
        &Ok(()),
    );
    assert_eq!(res.unwrap_err().message(), "The asset is not IBC token!");
    assert!(state.recipient_parameters.is_empty());
}

#[test]
fn swap_out_ibc_channel_with_ibc_token_goes_over_ibc() {
    let mut state = new_state();
    let msg = swap_msg(1_000, "ibc/ushd", "factory/uusk", "ukuji");
    let res = try_swap_out(
        &mut state,
        CONTRACT,
        &vec![Coin::new(420, "ukuji")],
        "alice",
        &msg,
        &Some("channel-0".to_string()),
        &Ok(()),
    )
    .unwrap();
    let transfer = settle(&mut state, &res.messages[0], 7);
    match &transfer.messages[0].msg {
        CosmosMsg::IbcTransfer { channel_id, to_address, amount, timeout_nanos } => {
            assert_eq!(channel_id, "channel-0");
            assert_eq!(to_address, "alice");
            assert_eq!(amount, &Coin::new(1_000, "ibc/ushd"));
            assert_eq!(*timeout_nanos, 7 + 900 * 1_000_000_000);
        }
        other => panic!("unexpected {:?}", other),
    }
}

#[test]
fn ibc_channel_to_kujira_address_is_refused() {
    let msg = swap_msg(1_000, "ibc/ushd", "factory/uusk", "ukuji");
    let res = verify_ibc_parameters(&msg, &Some("channel-0".to_string()), "kujira1xyz", &Ok(()));
    assert!(matches!(res, Err(ContractError::WrongIbcParameters { .. })));
}

#[test]
fn missing_min_return_coin_is_refused() {
    let msg = ExecuteMsg::Swap { recipient: None, min_return: Some(vec![]), stages: vec![] };
    assert_eq!(
        verify_ibc_parameters(&msg, &None, "alice", &Ok(())),
        Err(ContractError::CoinIsNotFound)
    );
    let msg = ExecuteMsg::Swap { recipient: None, min_return: None, stages: vec![] };
    assert_eq!(
        verify_ibc_parameters(&msg, &None, "alice", &Ok(())),
        Err(ContractError::WrongMantaswapMsg)
    );
}

#[test]
fn recipients_outside_the_dev_network_are_checked_in_kujira_form() {
    let data = [3u8; 20].to_base32();
    let osmo = bech32::encode("osmo", data.clone(), bech32::Variant::Bech32).unwrap();
    let kujira = bech32::encode("kujira", data, bech32::Variant::Bech32).unwrap();
    assert_eq!(address_to_validate("kaiyo-1", &osmo), kujira);
    assert_eq!(address_to_validate(CHAIN_ID_DEV, &osmo), osmo);
    assert_eq!(address_to_validate(CHAIN_ID_DEV, "alice"), "alice");
    // a plain address is handed to the chain's own check as it is
    assert_eq!(address_to_validate(TEST_CHAIN, "alice"), "alice");
    let msg = swap_msg(1_000, "ibc/ushd", "factory/uusk", "ukuji");
    assert_eq!(
        verify_ibc_parameters(&msg, &Some("channel-0".to_string()), &osmo, &Ok(())),
        Ok(osmo.clone())
    );
    assert_eq!(verify_ibc_parameters(&msg, &None, "alice", &Ok(())), Ok("alice".to_string()));
    let refused = StdError::GenericErr { msg: "Invalid input: human address too short".to_string() };
    assert_eq!(
        verify_ibc_parameters(&msg, &None, "al", &Err(refused.clone())),
        Err(ContractError::Std(refused))
    );
}

#[test]
fn update_config_default() {
    let mut state = new_state();
    let config_before = state.config.clone();
    let res = try_update_config(&mut state, "admin", &vec![], Some(5), Some("owner".to_string()), &Ok(()))
        .unwrap();
    assert_eq!(
        config_before,
        Config {
            admin: "admin".to_string(),
            router: ROUTER.to_string(),
            ibc_timeout: 15 * 60,
            chain_id: TEST_CHAIN.to_string(),
        }
    );
    assert_eq!(
        state.config,
        Config {
            admin: "admin".to_string(),
            router: "owner".to_string(),
            ibc_timeout: 5 * 60,
            chain_id: TEST_CHAIN.to_string(),
        }
    );
    assert_eq!(
        res.attributes,
        vec![
            Attribute::new("action", "try_update_config"),
            Attribute::new("ibc_timeout", "300"),
            Attribute::new("router", "owner"),
        ]
    );
}

#[test]
fn update_config_unauthorized_is_refused() {
    let mut state = new_state();
    let before = state.clone();
    let res = try_update_config(&mut state, "alice", &vec![], Some(5), Some("owner".to_string()), &Ok(()));
    assert_eq!(res.unwrap_err().message(), "Sender does not have access permissions!");
    assert_eq!(state, before);
}

#[test]
fn update_config_with_funds_is_refused() {
    let mut state = new_state();
    let res = try_update_config(
        &mut state,
        "admin",
        &vec![Coin::new(1_000, "ukuji")],
        Some(5),
        Some("owner".to_string()),
        &Ok(()),
    );
    assert_eq!(
        res,
        Err(ContractError::CustomError { val: "This message does no accept funds".to_string() })
    );
}

#[test]
fn update_config_with_invalid_router_changes_nothing() {
    let mut state = new_state();
    let before = state.clone();
    let e = StdError::GenericErr { msg: "Invalid input".to_string() };
    let res = try_update_config(&mut state, "admin", &vec![], Some(5), Some("?".to_string()), &Err(e.clone()));
    assert_eq!(res, Err(ContractError::Std(e)));
    assert_eq!(state, before);
}

#[test]
fn replies_pay_the_queue_in_order() {
    let mut state = new_state();
    assert_eq!(
        reply(&mut state, 9, 0, &received(1, "ukuji"), &Ok(1)),
        Err(ContractError::UndefinedReplyId)
    );
    assert_eq!(
        reply(&mut state, SWAP_IN_REPLY, 0, &received(1, "ukuji"), &Ok(1)),
        Err(ContractError::RecipientParametersAreNotFound)
    );
    let swap_in = swap_msg(420, "ukuji", "factory/uusk", "ibc/ushd");
    try_swap_in(&mut state, CONTRACT, &vec![Coin::new(1_000, "ibc/ushd")], "bob", &swap_in, &Ok(())).unwrap();
    let swap_out = swap_msg(1_000, "ibc/ushd", "factory/uusk", "ukuji");
    let channel = Some("channel-0".to_string());
    try_swap_out(&mut state, CONTRACT, &vec![Coin::new(420, "ukuji")], "osmo1xyz", &swap_out, &channel, &Ok(()))
        .unwrap();
    let before = state.clone();
    assert_eq!(
        reply(&mut state, SWAP_IN_REPLY, 0, &received(420, "ukuji"), &Ok(419)),
        Err(ContractError::BalanceIsNotEnough { symbol: "ukuji".to_string() })
    );
    assert_eq!(state, before);
    // the swap in's answer pays the vault, at the front
    let t1 = reply(&mut state, SWAP_IN_REPLY, 0, &received(420, "ukuji"), &Ok(420)).unwrap();
    assert_eq!(t1.attributes, vec![Attribute::new("digest", "420 ukuji bob")]);
    assert_eq!(t1.messages[0].msg, CosmosMsg::BankSend { to_address: "bob".to_string(), amount: vec![Coin::new(420, "ukuji")] });
    // the swap out's answer pays the user over the channel asked for
    let late = u64::MAX - 1;
    assert!(!reply_time_holds(&state, SWAP_OUT_REPLY, late, &received(1_000, "ibc/ushd"), &Ok(1_000)));
    assert!(reply_time_holds(&state, SWAP_IN_REPLY, late, &received(1_000, "ibc/ushd"), &Ok(1_000)));
    let t2 = reply(&mut state, SWAP_OUT_REPLY, 5, &received(1_000, "ibc/ushd"), &Ok(1_000)).unwrap();
    assert_eq!(t2.attributes, vec![Attribute::new("digest", "1000 ibc/ushd osmo1xyz")]);
    assert_eq!(
        t2.messages[0].msg,
        CosmosMsg::IbcTransfer {
            channel_id: "channel-0".to_string(),
            to_address: "osmo1xyz".to_string(),
            amount: Coin::new(1_000, "ibc/ushd"),
            timeout_nanos: 5 + 900 * 1_000_000_000,
        }
    );
    assert!(state.recipient_parameters.is_empty());
}
