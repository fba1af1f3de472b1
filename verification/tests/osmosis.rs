use eldorado::coin::Coin;
use eldorado::error::{ContractError, StdError};
use eldorado::osmosis::{
    migrate_contract, pending_recipient, pool_from_answer, query_config, reply_swap_out, swap_in_arithmetic_holds,
    swap_in_transfer, swap_out_arithmetic_holds, swap_out_transfer, transfer_time_holds,
    try_swap_in, try_swap_out, try_update_config, verify_ibc_parameters, Config, Pool, State,
    SWAP_IN_REPLY, SWAP_OUT_REPLY,
};
use eldorado::response::{Attribute, CosmosMsg, SubMsgResponse, TextCoin};
use eldorado::types::RecipientParameters;
use osmosis_std::types::cosmos::base::v1beta1::Coin as ProtoCoin;
use osmosis_std::types::osmosis::gamm::v1beta1::{MsgSwapExactAmountInResponse, Pool as ChainPool, PoolAsset};

const CONTRACT: &str = "contract7";

fn state() -> State {
    State { config: Config::new("admin"), recipient_parameters: vec![] }
}

fn pool(assets: &[(&str, &str)]) -> Result<Pool, StdError> {
    Ok(Pool {
        id: 1,
        pool_assets: assets
            .iter()
            .map(|(d, a)| Some(TextCoin { denom: d.to_string(), amount: a.to_string() }))
            .collect(),
    })
}

fn answer(amount: &str) -> Result<SubMsgResponse, String> {
    let data = MsgSwapExactAmountInResponse { token_out_amount: amount.to_string() }.to_proto_bytes();
    Ok(SubMsgResponse { events: vec![], data: Some(data) })
}

#[test]
fn swap_in_asks_for_nine_tenths() {
    let mut s = state();
    let res = try_swap_in(
        &mut s,
        CONTRACT,
        &vec![Coin::new(1_000, "ibc/ushd")],
        "bob",
        &pool(&[("ibc/ushd", "5000"), ("uosmo", "7000")]),
        &Ok(()),
    )
    .unwrap();
    assert_eq!(res.messages[0].id, SWAP_IN_REPLY);
    match &res.messages[0].msg {
        CosmosMsg::SwapExactAmountIn(m) => {
            assert_eq!(m.sender, CONTRACT);
            assert_eq!(m.routes.len(), 1);
            assert_eq!(m.routes[0].pool_id, 1);
            assert_eq!(m.routes[0].token_out_denom, "uosmo");
            assert_eq!(
                m.token_in,
                Some(TextCoin { denom: "ibc/ushd".to_string(), amount: "1000".to_string() })
            );
            assert_eq!(m.token_out_min_amount, "900");
        }
        other => panic!("unexpected {:?}", other),
    }
    assert_eq!(res.attributes, vec![Attribute::new("action", "try_swap_in")]);
    assert_eq!(
        pending_recipient(&s),
        Some(RecipientParameters {
            recipient_address: "bob".to_string(),
            channel_id: None,
            denom_out: "uosmo".to_string(),
        })
    );
}

#[test]
fn minimum_out_keeps_fractions() {
    let mut s = state();
    let res = try_swap_out(
        &mut s,
        CONTRACT,
        &vec![Coin::new(5, "uosmo")],
        "alice",
        None,
        &pool(&[("uosmo", "10"), ("factory/uusk", "10")]),
        &Ok(()),
    )
    .unwrap();
    assert_eq!(res.messages[0].id, SWAP_OUT_REPLY);
    match &res.messages[0].msg {
        CosmosMsg::SwapExactAmountIn(m) => assert_eq!(m.token_out_min_amount, "4.5"),
        other => panic!("unexpected {:?}", other),
    }
}

#[test]
fn pool_errors() {
    let mut s = state();
    let funds = vec![Coin::new(5, "uosmo")];
    assert_eq!(
        try_swap_out(&mut s, CONTRACT, &funds, "alice", None, &pool(&[("uosmo", "10")]), &Ok(())),
        Err(ContractError::CoinIsNotFound)
    );
    assert_eq!(
        try_swap_out(&mut s, CONTRACT, &funds, "alice", None, &pool(&[("a", "1"), ("b", "1")]), &Ok(())),
        Err(ContractError::CoinIsNotFound)
    );
    let missing = Ok(Pool { id: 1, pool_assets: vec![None] });
    assert_eq!(
        try_swap_out(&mut s, CONTRACT, &funds, "alice", None, &missing, &Ok(())),
        Err(ContractError::CoinIsNotFound)
    );
    let not_found = Err(StdError::GenericErr { msg: "Pool is not found!".to_string() });
    assert_eq!(
        try_swap_out(&mut s, CONTRACT, &funds, "alice", None, &not_found, &Ok(())),
        Err(ContractError::Std(StdError::GenericErr { msg: "Pool is not found!".to_string() }))
    );
    assert_eq!(
        try_swap_out(
            &mut s,
            CONTRACT,
            &funds,
            "alice",
            Some("channel-1".to_string()),
            &pool(&[("uosmo", "10"), ("factory/uusk", "10")]),
            &Ok(())
        ),
        Err(ContractError::AssetIsNotIbcToken)
    );
    assert!(s.recipient_parameters.is_empty());
}

#[test]
fn ibc_check() {
    assert_eq!(verify_ibc_parameters("uusk", &Some("c".to_string())), Err(ContractError::AssetIsNotIbcToken));
    assert_eq!(verify_ibc_parameters("ibc/x", &Some("c".to_string())), Ok(()));
    assert_eq!(verify_ibc_parameters("uusk", &None), Ok(()));
}

#[test]
fn swap_then_transfer_serves_queue_in_order() {
    let mut s = state();
    let p = pool(&[("uosmo", "10"), ("ibc/ushd", "10")]);
    try_swap_out(&mut s, CONTRACT, &vec![Coin::new(100, "uosmo")], "alice", Some("channel-0".to_string()), &p, &Ok(()))
        .unwrap();
    try_swap_out(&mut s, CONTRACT, &vec![Coin::new(100, "uosmo")], "carol", None, &p, &Ok(()))
        .unwrap();
    let t1 = swap_out_transfer(&mut s, 1_000, &answer("95"), &Ok(95)).unwrap();
    match &t1.messages[0].msg {
        CosmosMsg::IbcTransfer { channel_id, to_address, amount, timeout_nanos } => {
            assert_eq!(channel_id, "channel-0");
            assert_eq!(to_address, "alice");
            assert_eq!(amount, &Coin::new(95, "ibc/ushd"));
            assert_eq!(*timeout_nanos, 1_000 + 900 * 1_000_000_000);
        }
        other => panic!("unexpected {:?}", other),
    }
    assert_eq!(t1.attributes, vec![Attribute::new("digest", "95 ibc/ushd alice")]);
    let t2 = swap_out_transfer(&mut s, 1_000, &answer("96"), &Ok(200)).unwrap();
    match &t2.messages[0].msg {
        CosmosMsg::BankSend { to_address, amount } => {
            assert_eq!(to_address, "carol");
            assert_eq!(amount, &vec![Coin::new(96, "ibc/ushd")]);
        }
        other => panic!("unexpected {:?}", other),
    }
    assert!(s.recipient_parameters.is_empty());
}

#[test]
fn swap_in_transfer_pays_vault() {
    let mut s = state();
    try_swap_in(&mut s, CONTRACT, &vec![Coin::new(420, "ibc/ushd")], "bob", &pool(&[("ibc/ushd", "9"), ("uosmo", "9")]), &Ok(()))
        .unwrap();
    let t = swap_in_transfer(&mut s, &answer("420"), &Ok(1_000)).unwrap();
    assert_eq!(t.attributes, vec![Attribute::new("digest", "420 uosmo bob")]);
    match &t.messages[0].msg {
        CosmosMsg::BankSend { to_address, amount } => {
            assert_eq!(to_address, "bob");
            assert_eq!(amount, &vec![Coin::new(420, "uosmo")]);
        }
        other => panic!("unexpected {:?}", other),
    }
}

#[test]
fn transfer_errors_change_nothing() {
    let mut s = state();
    assert_eq!(swap_in_transfer(&mut s, &answer("1"), &Ok(1)), Err(ContractError::RecipientParametersAreNotFound));
    try_swap_in(&mut s, CONTRACT, &vec![Coin::new(420, "ibc/ushd")], "bob", &pool(&[("ibc/ushd", "9"), ("uosmo", "9")]), &Ok(()))
        .unwrap();
    let before = s.clone();
    assert_eq!(
        swap_in_transfer(&mut s, &answer("500"), &Ok(499)),
        Err(ContractError::BalanceIsNotEnough { symbol: "uosmo".to_string() })
    );
    assert_eq!(
        swap_in_transfer(&mut s, &Ok(SubMsgResponse { events: vec![], data: None }), &Ok(1)),
        Err(ContractError::CoinIsNotFound)
    );
    assert_eq!(swap_in_transfer(&mut s, &Err("failed".to_string()), &Ok(1)), Err(ContractError::CoinIsNotFound));
    assert!(matches!(swap_in_transfer(&mut s, &answer("x1"), &Ok(1)), Err(ContractError::Std(StdError::GenericErr { .. }))));
    assert!(matches!(
        swap_in_transfer(&mut s, &Ok(SubMsgResponse { events: vec![], data: Some(vec![0xff, 0xff]) }), &Ok(1)),
        Err(ContractError::Std(StdError::ParseErr { .. }))
    ));
    assert_eq!(s, before);
}

#[test]
fn osmosis_update_config() {
    let mut s = state();
    let r = try_update_config(&mut s, "admin", &vec![], Some(2)).unwrap();
    assert_eq!(s.config.ibc_timeout, 120);
    assert_eq!(r.attributes, vec![Attribute::new("action", "try_update_config"), Attribute::new("ibc_timeout", "120")]);
    assert_eq!(try_update_config(&mut s, "eve", &vec![], Some(3)), Err(ContractError::Unauthorized));
    assert_eq!(query_config(&s), Config { admin: "admin".to_string(), ibc_timeout: 120 });
    let _ = migrate_contract;
}

#[test]
fn arithmetic_checks_before_swaps() {
    let p = pool(&[("ibc/ushd", "5000"), ("uosmo", "7000")]);
    assert!(swap_in_arithmetic_holds(&vec![Coin::new(1_000, "ibc/ushd")], &p));
    assert!(!swap_in_arithmetic_holds(&vec![Coin::new(u128::MAX, "ibc/ushd")], &p));
    let zero = pool(&[("ibc/ushd", "0"), ("uosmo", "7000")]);
    assert!(!swap_in_arithmetic_holds(&vec![Coin::new(1, "ibc/ushd")], &zero));
    let text = pool(&[("ibc/ushd", "abc"), ("uosmo", "7000")]);
    assert!(!swap_in_arithmetic_holds(&vec![Coin::new(1, "ibc/ushd")], &text));
    // where the swap fails first, the arithmetic is never reached
    assert!(swap_in_arithmetic_holds(&vec![], &zero));
    assert!(swap_in_arithmetic_holds(&vec![Coin::new(1, "uatom")], &pool(&[("uosmo", "1")])));
    let out = pool(&[("uosmo", "0"), ("uusk", "7")]);
    assert!(!swap_out_arithmetic_holds(&vec![Coin::new(5, "uosmo")], &None, &out));
    assert!(swap_out_arithmetic_holds(&vec![Coin::new(5, "uosmo")], &Some("c".to_string()), &out));
}

#[test]
fn swap_out_reply_checks_timeout_range() {
    let mut s = state();
    let p = pool(&[("uosmo", "10"), ("ibc/ushd", "10")]);
    try_swap_out(&mut s, CONTRACT, &vec![Coin::new(100, "uosmo")], "alice", Some("channel-0".to_string()), &p, &Ok(()))
        .unwrap();
    let late = u64::MAX - 1;
    assert!(!transfer_time_holds(&s, late, &answer("95"), &Ok(95)));
    assert!(transfer_time_holds(&s, late, &answer("95"), &Ok(94)));
    let before = s.clone();
    assert_eq!(reply_swap_out(&mut s, late, &answer("95"), &Ok(95)), None);
    assert_eq!(s, before);
    let r = reply_swap_out(&mut s, 7, &answer("95"), &Ok(95)).unwrap().unwrap();
    match &r.messages[0].msg {
        CosmosMsg::IbcTransfer { timeout_nanos, .. } => assert_eq!(*timeout_nanos, 7 + 900 * 1_000_000_000),
        other => panic!("unexpected {:?}", other),
    }
    assert!(s.recipient_parameters.is_empty());
}

#[test]
fn uint128_parsing() {
    let mut s = state();
    try_swap_in(&mut s, CONTRACT, &vec![Coin::new(7, "ibc/ushd")], "bob", &pool(&[("ibc/ushd", "9"), ("uosmo", "9")]), &Ok(()))
        .unwrap();
    let before = s.clone();
    match swap_in_transfer(&mut s, &answer("42a"), &Ok(100)) {
        Err(ContractError::Std(StdError::GenericErr { msg })) => assert!(msg.starts_with("Parsing u128: ")),
        other => panic!("unexpected {:?}", other),
    }
    assert_eq!(s, before);
    let t = swap_in_transfer(&mut s, &answer("+7"), &Ok(100)).unwrap();
    assert_eq!(t.attributes, vec![Attribute::new("digest", "7 uosmo bob")]);
}

#[test]
fn pool_answers() {
    let chain = ChainPool {
        id: 7,
        pool_assets: vec![
            PoolAsset {
                token: Some(ProtoCoin { denom: "uosmo".to_string(), amount: "10".to_string() }),
                weight: "1".to_string(),
            },
            PoolAsset { token: None, weight: "1".to_string() },
        ],
        ..Default::default()
    };
    assert_eq!(
        pool_from_answer(&Some(chain.to_proto_bytes())),
        Ok(Pool {
            id: 7,
            pool_assets: vec![Some(TextCoin { denom: "uosmo".to_string(), amount: "10".to_string() }), None],
        })
    );
    assert_eq!(
        pool_from_answer(&None),
        Err(StdError::GenericErr { msg: "Pool is not found!".to_string() })
    );
    assert_eq!(
        pool_from_answer(&Some(vec![0xff, 0xff])),
        Err(StdError::GenericErr { msg: "Pools can not be parsed!".to_string() })
    );
}
