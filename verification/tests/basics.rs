use bech32::ToBase32;
use eldorado::coin::{
    coin_from_str, must_pay, nonpayable, one_coin, Coin, CoinParseError, PaymentError,
};
use eldorado::converters::{
    dec_to_u128, dec_to_uint128, get_addr_by_prefix, str_to_dec, str_vec_to_dec_vec,
    try_str_to_dec, u128_to_dec,
    u128_vec_to_uint128_vec, Decimal,
};
use eldorado::converters::{dec256_to_dec, dec256_to_u128, dec_to_dec256, u128_to_dec256, Decimal256};
use eldorado::error::{from_std_err, to_std_err, ContractError, StdError};
use eldorado::text::{str_before_char, str_contains, str_eq, u128_to_string};

fn coins(list: &[(u128, &str)]) -> Vec<Coin> {
    list.iter().map(|(a, d)| Coin::new(*a, d)).collect()
}

#[test]
fn decimal_text_of_integers() {
    assert_eq!(u128_to_string(0), "0");
    assert_eq!(u128_to_string(7), "7");
    assert_eq!(u128_to_string(1234567890), "1234567890");
    assert_eq!(u128_to_string(u128::MAX), u128::MAX.to_string());
}

#[test]
fn text_helpers() {
    assert!(str_contains("ibc/ushd", "ibc/"));
    assert!(str_contains("xxibc/", "ibc/"));
    assert!(!str_contains("factory/uusk", "ibc/"));
    assert!(!str_contains("ib", "ibc/"));
    assert!(str_contains("abc", ""));
    assert_eq!(str_before_char("kujira1abc", '1'), "kujira");
    assert_eq!(str_before_char("alice", '1'), "alice");
    assert_eq!(str_before_char("1abc", '1'), "");
    assert!(str_eq("ukuji", "ukuji"));
    assert!(!str_eq("ukuji", "uosmo"));
}

#[test]
fn one_coin_rules() {
    assert_eq!(one_coin(&coins(&[])), Err(PaymentError::NoFunds));
    assert_eq!(one_coin(&coins(&[(0, "ukuji")])), Err(PaymentError::NoFunds));
    assert_eq!(one_coin(&coins(&[(5, "ukuji")])), Ok(Coin::new(5, "ukuji")));
    assert_eq!(
        one_coin(&coins(&[(5, "ukuji"), (1, "uosmo")])),
        Err(PaymentError::MultipleDenoms)
    );
}

#[test]
fn must_pay_rules() {
    assert_eq!(must_pay(&coins(&[(420, "ukuji")]), "ukuji"), Ok(420));
    assert_eq!(
        must_pay(&coins(&[(420, "ibc/ushd")]), "ukuji"),
        Err(PaymentError::MissingDenom("ukuji".to_string()))
    );
    assert_eq!(must_pay(&coins(&[]), "ukuji"), Err(PaymentError::NoFunds));
    assert_eq!(
        PaymentError::MissingDenom("ukuji".to_string()).message(),
        "Must send reserve token 'ukuji'"
    );
    assert_eq!(PaymentError::NoFunds.message(), "No funds sent");
    assert_eq!(PaymentError::MultipleDenoms.message(), "Sent more than one denomination");
    assert_eq!(
        PaymentError::ExtraDenom("wei".to_string()).message(),
        "Received unsupported denom 'wei'"
    );
}

#[test]
fn nonpayable_rules() {
    assert_eq!(nonpayable(&coins(&[])), Ok(()));
    assert_eq!(nonpayable(&coins(&[(1, "ukuji")])), Err(PaymentError::NonPayable));
    assert_eq!(PaymentError::NonPayable.message(), "This message does no accept funds");
}

#[test]
fn coin_text_round_trip() {
    assert_eq!(coin_from_str("420ukuji"), Ok(Coin::new(420, "ukuji")));
    assert_eq!(coin_from_str("1000ibc/ushd"), Ok(Coin::new(1000, "ibc/ushd")));
    assert_eq!(coin_from_str("0x"), Ok(Coin::new(0, "x")));
    assert_eq!(coin_from_str("ukuji"), Err(CoinParseError::MissingAmount));
    assert_eq!(coin_from_str("420"), Err(CoinParseError::MissingDenom));
    assert_eq!(coin_from_str(""), Err(CoinParseError::MissingDenom));
    assert_eq!(
        coin_from_str("340282366920938463463374607431768211456ukuji"),
        Err(CoinParseError::InvalidAmount)
    );
    assert_eq!(
        coin_from_str("340282366920938463463374607431768211455ukuji"),
        Ok(Coin::new(u128::MAX, "ukuji"))
    );
    assert_eq!(Coin::new(420, "ukuji").to_text(), "420ukuji");
    // the same reading as the framework's
    let c: cosmwasm_std::Coin = "1000ibc/ushd".parse().unwrap();
    assert_eq!(coin_from_str("1000ibc/ushd").unwrap().amount, c.amount.u128());
    assert_eq!(CoinParseError::MissingDenom.message(), "Missing denominator");
}

#[test]
fn error_texts() {
    assert_eq!(
        ContractError::Unauthorized.message(),
        "Sender does not have access permissions!"
    );
    assert_eq!(
        ContractError::CustomError { val: "No funds sent".to_string() }.message(),
        "Custom Error val: \"No funds sent\""
    );
    assert_eq!(
        ContractError::BalanceIsNotEnough { symbol: "ukuji".to_string() }.message(),
        "\"ukuji\" balance isn't enough!"
    );
    assert_eq!(ContractError::AssetIsNotIbcToken.message(), "The asset is not IBC token!");
    assert_eq!(ContractError::WrongMantaswapMsg.message(), "Wrong MantaSwap message type!");
    assert_eq!(
        ContractError::CustomError { val: "a\"b".to_string() }.message(),
        "Custom Error val: \"a\\\"b\""
    );
    let e = StdError::GenericErr { msg: "boom".to_string() };
    assert_eq!(e.message(), "Generic error: boom");
    assert_eq!(
        from_std_err(e),
        ContractError::CustomError { val: "Generic error: boom".to_string() }
    );
    assert_eq!(
        to_std_err(ContractError::CoinIsNotFound),
        StdError::GenericErr { msg: "Coin is not found!".to_string() }
    );
    assert_eq!(
        StdError::NotFound { kind: "config".to_string() }.message(),
        "config not found"
    );
}

#[test]
fn decimals() {
    assert_eq!(str_to_dec("0.9"), Decimal { atomics: 900_000_000_000_000_000 });
    assert_eq!(str_to_dec("1"), Decimal { atomics: 1_000_000_000_000_000_000 });
    assert_eq!(str_to_dec("+1.5"), Decimal { atomics: 1_500_000_000_000_000_000 });
    assert_eq!(try_str_to_dec("1.2.3"), None);
    assert_eq!(try_str_to_dec(".5"), None);
    assert_eq!(try_str_to_dec("0.1234567890123456789"), None);
    assert_eq!(u128_to_dec(5), Decimal { atomics: 5_000_000_000_000_000_000 });
    assert_eq!(dec_to_u128(str_to_dec("1.5")), 2);
    assert_eq!(dec_to_u128(str_to_dec("2")), 2);
    assert_eq!(dec_to_uint128(Decimal { atomics: 0 }), 0);
    assert_eq!(dec_to_uint128(Decimal { atomics: 1 }), 1);
    let v = str_vec_to_dec_vec(&["1", "0.5"]);
    assert_eq!(v, vec![str_to_dec("1"), str_to_dec("0.5")]);
    assert_eq!(u128_vec_to_uint128_vec(&[1, 2, 3]), vec![1, 2, 3]);
}

#[test]
fn address_prefix_conversion() {
    let data = [7u8; 20].to_base32();
    let cosmos = bech32::encode("cosmos", data.clone(), bech32::Variant::Bech32).unwrap();
    let kujira = bech32::encode("kujira", data, bech32::Variant::Bech32).unwrap();
    assert_eq!(get_addr_by_prefix(&cosmos, "kujira"), Ok(kujira.clone()));
    assert_eq!(get_addr_by_prefix(&kujira, "kujira"), Ok(kujira));
    assert!(matches!(get_addr_by_prefix("alice", "kujira"), Err(StdError::GenericErr { .. })));
}

#[test]
fn decimal256_conversions() {
    assert_eq!(u128_to_dec256(5), Decimal256 { hi: 0, lo: 5_000_000_000_000_000_000 });
    let big = u128_to_dec256(u128::MAX);
    assert!(big.hi > 0);
    assert_eq!(dec_to_dec256(str_to_dec("1.5")), Decimal256 { hi: 0, lo: 1_500_000_000_000_000_000 });
    assert_eq!(dec_to_dec256(str_to_dec("0.05")), Decimal256 { hi: 0, lo: 50_000_000_000_000_000 });
    assert_eq!(dec_to_dec256(Decimal { atomics: u128::MAX }), Decimal256 { hi: 0, lo: u128::MAX });
    assert_eq!(dec256_to_dec(Decimal256 { hi: 0, lo: 1_500_000_000_000_000_000 }), str_to_dec("1.5"));
    // only the first 18 characters of the text are read
    let d = dec_to_dec256(str_to_dec("123456789012345678.9"));
    assert_eq!(dec256_to_dec(d), str_to_dec("123456789012345678"));
    assert_eq!(dec256_to_u128(Decimal256 { hi: 0, lo: 1_500_000_000_000_000_000 }), 2);
    assert_eq!(dec256_to_u128(Decimal256 { hi: 0, lo: 0 }), 0);
}
