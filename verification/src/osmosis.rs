//! The Osmosis aggregator: swaps through an Osmosis pool on the user's behalf,
//! queues where each swap's proceeds are to go, and sends them on when the
//! swap's answer comes back.
use vstd::prelude::*;

use crate::coin::{
    digits_value, must_pay, nonpayable, one_coin, spec_must_pay, spec_nonpayable, spec_one_coin,
    Coin, CoinView,
};
use crate::converters::{
    decimal_div, decimal_mul, decimal_text, decimal_to_string, parse_uint128, pow10,
    spec_decimal_from_str, spec_parse_u128, str_to_dec, try_str_to_dec, u128_parse_error_text, u128_to_dec,
    DECIMAL_FRACTIONAL,
};
use crate::error::{
    contract_error_text, to_std_err, ContractError, ContractErrorView, StdError, StdErrorView,
};
use crate::kujira::{attributes_response, payment_failure, swap_response, timeout_ok};
use crate::response::{
    timestamp_plus_seconds, CosmosMsg, CosmosMsgView, MsgSwapExactAmountIn,
    MsgSwapExactAmountInView, ReplyOn, Response, ResponseView, SubMsgResponse, SubMsgResponseView,
    SubMsgView, SwapAmountInRoute, TextCoin,
};
use crate::text::{
    before_char, contains_seq, decimal_digits, duplicate_opt_string, push_deep, result_view,
    str_contains, str_eq, str_to_owned, u128_to_string,
};
use crate::types::{RecipientParameters, RecipientView};

verus! {

/// Default IBC timeout, in minutes.
pub const TIMEOUT_IN_MINS: u8 = 15;

/// The native denomination of Osmosis.
pub const BASE_DENOM: &'static str = "uosmo";

/// The address prefix of Osmosis.
pub const BASE_PREFIX: &'static str = "osmo";

/// Reply identifier of the swap made for `SwapIn`.
pub const SWAP_IN_REPLY: u64 = 1;

/// Reply identifier of the swap made for `SwapOut`.
pub const SWAP_OUT_REPLY: u64 = 2;

/// The contract's configuration.
#[derive(Debug, Clone, PartialEq, Eq)]
pub struct Config {
    pub admin: String,
    /// IBC timeout in seconds.
    pub ibc_timeout: u64,
}

pub struct ConfigView {
    pub admin: Seq<char>,
    pub ibc_timeout: u64,
}

impl DeepView for Config {
    type V = ConfigView;

    open spec fn deep_view(&self) -> ConfigView {
        ConfigView { admin: self.admin@, ibc_timeout: self.ibc_timeout }
    }
}

impl Config {
    /// A configuration with the default timeout of 15 minutes.
    pub fn new(admin: &str) -> (res: Config)
        ensures
            res.deep_view() == (ConfigView { admin: admin@, ibc_timeout: 900 }),
    {
        Config { admin: str_to_owned(admin), ibc_timeout: (TIMEOUT_IN_MINS as u64) * 60 }
    }
}

/// The contract's stored state: its configuration and the queue of pending recipients.
#[derive(Debug, Clone, PartialEq, Eq)]
pub struct State {
    pub config: Config,
    pub recipient_parameters: Vec<RecipientParameters>,
}

pub struct StateView {
    pub config: ConfigView,
    pub recipient_parameters: Seq<RecipientView>,
}

impl DeepView for State {
    type V = StateView;

    open spec fn deep_view(&self) -> StateView {
        StateView {
            config: self.config.deep_view(),
            recipient_parameters: self.recipient_parameters.deep_view(),
        }
    }
}

/// Message that creates the contract.
#[derive(Debug, Clone, PartialEq, Eq)]
pub struct InstantiateMsg {}

/// Messages the contract executes.
#[derive(Debug, Clone, PartialEq, Eq)]
pub enum ExecuteMsg {
    /// Called by a user: swap a token into native Osmo and send it to the vault.
    SwapIn { vault_address: String },
    /// Called by the vault: swap native Osmo into a token and send it to the
    /// user on Osmosis or, over `channel_id`, on another network.
    SwapOut { user_address: String, denom_out: String, channel_id: Option<String> },
    /// Called by the admin.
    UpdateConfig { ibc_timeout_in_mins: Option<u8> },
}

/// Queries the contract answers.
#[derive(Debug, Clone, PartialEq, Eq)]
pub enum QueryMsg {
    QueryConfig,
}

/// Message that migrates the contract: it has no value, so no migration is accepted.
pub type MigrateMsg = core::convert::Infallible;

/// Amounts of a pair of assets in a pool.
#[derive(Debug, Clone, PartialEq, Eq)]
pub struct PairInfo {
    pub pool_id: u64,
    pub asset_in_amount: u128,
    pub asset_out_amount: u128,
    pub osmo_amount: u128,
}

/// A pool as the chain reports it: its identifier and its assets' tokens.
#[derive(Debug, Clone, PartialEq, Eq)]
pub struct Pool {
    pub id: u64,
    pub pool_assets: Vec<Option<TextCoin>>,
}

pub struct PoolView {
    pub id: u64,
    pub pool_assets: Seq<Option<(Seq<char>, Seq<char>)>>,
}

impl DeepView for Pool {
    type V = PoolView;

    open spec fn deep_view(&self) -> PoolView {
        PoolView { id: self.id, pool_assets: self.pool_assets.deep_view() }
    }
}

/// What the protobuf decoding of a pool's bytes gives (the `value` of the
/// pool manager's answer, read as a balancer pool): its identifier and its
/// assets' tokens, or `None` when the bytes do not decode.
pub uninterp spec fn pool_decoded(bytes: Seq<u8>) -> Option<PoolView>;

/// Calls `TryFrom<Any>` of `osmosis_std`'s balancer `Pool`, which decodes the
/// bytes as protobuf, and keeps the pool's identifier and its assets' tokens;
/// the outcome is named `pool_decoded`.
#[verifier::external_body]
fn decode_pool(bytes: &Vec<u8>) -> (res: Option<Pool>)
    ensures
        match res {
            Some(p) => pool_decoded(bytes@) == Some(p.deep_view()),
            None => pool_decoded(bytes@) is None,
        },
{
    let any = osmosis_std::shim::Any { type_url: String::new(), value: bytes.clone() };
    let p: osmosis_std::types::osmosis::gamm::v1beta1::Pool = any.try_into().ok()?;
    let pool_assets = p.pool_assets.into_iter().map(|a| a.token.map(|t| TextCoin { denom: t.denom, amount: t.amount }));
    Some(Pool { id: p.id, pool_assets: pool_assets.collect() })
}

/// The pool that the pool manager's answer holds, or the error that the
/// contract reports when it holds none or its bytes do not decode.
pub open spec fn spec_pool_from_answer(answer: Option<Seq<u8>>) -> Result<PoolView, StdErrorView> {
    match answer {
        None => Err(
            StdErrorView::GenericErr { msg: contract_error_text(ContractErrorView::PoolIsNotFound) },
        ),
        Some(b) => match pool_decoded(b) {
            None => Err(
                StdErrorView::GenericErr {
                    msg: contract_error_text(ContractErrorView::PoolsCanNotBeParsed),
                },
            ),
            Some(p) => Ok(p),
        },
    }
}

/// Reads the pool from the pool manager's answer: the bytes of the pool it
/// found, if any.
pub fn pool_from_answer(answer: &Option<Vec<u8>>) -> (res: Result<Pool, StdError>)
    ensures
        result_view(&res) == spec_pool_from_answer(answer.deep_view()),
{
    match answer {
        None => Err(to_std_err(ContractError::PoolIsNotFound)),
        Some(b) => match decode_pool(b) {
            None => {
                assert(b.deep_view() =~= b@);
                Err(to_std_err(ContractError::PoolsCanNotBeParsed))
            },
            Some(p) => {
                assert(b.deep_view() =~= b@);
                Ok(p)
            },
        },
    }
}

/// The position of the first asset whose denomination equals `denom`
/// (`want_eq`) or differs from it (`!want_eq`).
pub open spec fn first_match(
    assets: Seq<(Seq<char>, Seq<char>)>,
    denom: Seq<char>,
    want_eq: bool,
) -> Option<int>
    decreases assets.len(),
{
    if assets.len() == 0 {
        None
    } else if (assets[0].0 == denom) == want_eq {
        Some(0)
    } else {
        match first_match(assets.drop_first(), denom, want_eq) {
            Some(i) => Some(i + 1),
            None => None,
        }
    }
}

proof fn lemma_first_match(
    assets: Seq<(Seq<char>, Seq<char>)>,
    denom: Seq<char>,
    want_eq: bool,
    i: int,
)
    requires
        0 <= i <= assets.len(),
        forall|k: int| 0 <= k < i ==> (#[trigger] assets[k].0 == denom) != want_eq,
    ensures
        i < assets.len() && (assets[i].0 == denom) == want_eq ==> first_match(
            assets,
            denom,
            want_eq,
        ) == Some(i),
        i == assets.len() ==> first_match(assets, denom, want_eq) is None,
    decreases i,
{
    if i > 0 {
        let tail = assets.drop_first();
        assert forall|k: int| 0 <= k < i - 1 implies (#[trigger] tail[k].0 == denom) != want_eq by {
            assert(tail[k] == assets[k + 1]);
        }
        lemma_first_match(tail, denom, want_eq, i - 1);
    }
}

/// All the pool's assets carry a token.
pub open spec fn all_tokens(assets: Seq<Option<(Seq<char>, Seq<char>)>>) -> bool {
    forall|i: int| 0 <= i < assets.len() ==> (#[trigger] assets[i]) is Some
}

/// The tokens of the pool's assets.
pub open spec fn tokens(assets: Seq<Option<(Seq<char>, Seq<char>)>>) -> Seq<(Seq<char>, Seq<char>)> {
    Seq::new(assets.len(), |i: int| assets[i]->0)
}

/// The minimum amount out that the swap asks for: nine tenths of the amount
/// in, times the ratio of the pool's input amount to itself, as decimal text.
pub open spec fn spec_min_out(amount_in: u128, pool_amount: u128) -> Seq<char> {
    let a = amount_in * DECIMAL_FRACTIONAL;
    let m1 = 900_000_000_000_000_000int * a / (DECIMAL_FRACTIONAL as int);
    let ratio = pool_amount * DECIMAL_FRACTIONAL / (pool_amount as int);
    decimal_text((m1 * ratio / (DECIMAL_FRACTIONAL as int)) as u128)
}

/// The swap `get_swap_msg` builds for `amount_in` of `denom_in` on `pool`,
/// and the denomination it gives out.
pub open spec fn spec_get_swap_msg(
    pool: Result<PoolView, StdErrorView>,
    contract_address: Seq<char>,
    amount_in: u128,
    denom_in: Seq<char>,
    channel_id: Option<Seq<char>>,
) -> Result<(MsgSwapExactAmountInView, Seq<char>), ContractErrorView> {
    match pool {
        Err(e) => Err(ContractErrorView::Std(e)),
        Ok(p) => if !all_tokens(p.pool_assets) {
            Err(ContractErrorView::CoinIsNotFound)
        } else {
            let assets = tokens(p.pool_assets);
            match (first_match(assets, denom_in, true), first_match(assets, denom_in, false)) {
                (Some(i), Some(o)) => if channel_id is Some && !contains_seq(
                    assets[o].0,
                    "ibc/"@,
                ) {
                    Err(ContractErrorView::AssetIsNotIbcToken)
                } else {
                    let pool_amount = spec_decimal_from_str(assets[i].1)->0;
                    Ok(
                        (
                            MsgSwapExactAmountInView {
                                sender: contract_address,
                                routes: seq![(p.id, assets[o].0)],
                                token_in: Some((denom_in, decimal_digits(amount_in as nat))),
                                token_out_min_amount: spec_min_out(amount_in, pool_amount),
                            },
                            assets[o].0,
                        ),
                    )
                },
                _ => Err(ContractErrorView::CoinIsNotFound),
            }
        },
    }
}

/// `get_swap_msg` does not fail on the fixed-point arithmetic: wherever it
/// gets that far, the amount in fits as a decimal and the pool's amount of the
/// input asset is a non-zero decimal.
pub open spec fn swap_arithmetic_ok(
    pool: Result<PoolView, StdErrorView>,
    amount_in: u128,
    denom_in: Seq<char>,
    channel_id: Option<Seq<char>>,
) -> bool {
    match pool {
        Err(_) => true,
        Ok(p) => if !all_tokens(p.pool_assets) {
            true
        } else {
            let assets = tokens(p.pool_assets);
            match (first_match(assets, denom_in, true), first_match(assets, denom_in, false)) {
                (Some(i), Some(o)) => if channel_id is Some && !contains_seq(
                    assets[o].0,
                    "ibc/"@,
                ) {
                    true
                } else {
                    &&& amount_in * DECIMAL_FRACTIONAL <= u128::MAX
                    &&& spec_decimal_from_str(assets[i].1) matches Some(v) && v != 0
                },
                _ => true,
            }
        },
    }
}

/// The text `0.9` reads as nine tenths.
proof fn lemma_nine_tenths()
    ensures
        spec_decimal_from_str("0.9"@) == Some(900_000_000_000_000_000u128),
{
    reveal_strlit("0.9");
    let s = "0.9"@;
    assert(s.len() == 3);
    assert(s[0] == '0' && s[1] == '.' && s[2] == '9');
    assert(s.drop_first().drop_first() =~= seq!['9']);
    assert(before_char(s.drop_first(), '.') =~= Seq::<char>::empty());
    assert(before_char(s, '.') =~= seq!['0']);
    let rest = s.skip(2);
    assert(rest =~= seq!['9']);
    assert(rest.drop_first() =~= Seq::<char>::empty());
    assert(rest[0] == '9');
    assert(before_char(rest.drop_first(), '.') =~= Seq::<char>::empty());
    assert(before_char(rest, '.') =~= seq!['9'] + Seq::<char>::empty());
    assert(before_char(rest, '.') =~= seq!['9']);
    assert(seq!['0'].drop_last() =~= Seq::<char>::empty());
    assert(seq!['9'].drop_last() =~= Seq::<char>::empty());
    assert('0' as int == 48);
    assert('9' as int == 57);
    assert(digits_value(Seq::<char>::empty()) == 0);
    assert(digits_value(seq!['0']) == 0);
    assert(digits_value(seq!['9']) == 9);
    assert(spec_parse_u128(seq!['0']) == Some(0nat));
    assert(spec_parse_u128(seq!['9']) == Some(9nat));
    reveal_with_fuel(pow10, 18);
    assert(pow10(17) == 100_000_000_000_000_000);
}

proof fn lemma_ratio_is_one(p: u128)
    requires
        p != 0,
    ensures
        p * DECIMAL_FRACTIONAL / (p as int) == DECIMAL_FRACTIONAL,
{
    vstd::arithmetic::div_mod::lemma_div_by_multiple(DECIMAL_FRACTIONAL as int, p as int);
    assert(p * DECIMAL_FRACTIONAL == DECIMAL_FRACTIONAL * p) by (nonlinear_arith);
}

proof fn lemma_scale_back(a: int)
    requires
        a >= 0,
    ensures
        900_000_000_000_000_000int * (a * DECIMAL_FRACTIONAL) / (DECIMAL_FRACTIONAL as int)
            == 900_000_000_000_000_000int * a,
        (900_000_000_000_000_000int * a) * DECIMAL_FRACTIONAL / (DECIMAL_FRACTIONAL as int)
            == 900_000_000_000_000_000int * a,
{
    let f = DECIMAL_FRACTIONAL as int;
    assert(900_000_000_000_000_000int * (a * f) == (900_000_000_000_000_000int * a) * f)
        by (nonlinear_arith);
    vstd::arithmetic::div_mod::lemma_div_by_multiple(900_000_000_000_000_000int * a, f);
}


/// A copy of a text coin.
fn duplicate_text_coin(c: &TextCoin) -> (res: TextCoin)
    ensures
        res.deep_view() == c.deep_view(),
{
    TextCoin { denom: str_to_owned(c.denom.as_str()), amount: str_to_owned(c.amount.as_str()) }
}

/// The tokens of all assets, or `None` when an asset carries none.
fn collect_tokens(assets: &Vec<Option<TextCoin>>) -> (res: Option<Vec<TextCoin>>)
    ensures
        match res {
            Some(v) => all_tokens(assets.deep_view()) && v.deep_view() == tokens(assets.deep_view()),
            None => !all_tokens(assets.deep_view()),
        },
{
    let mut out: Vec<TextCoin> = Vec::new();
    let mut i: usize = 0;
    while i < assets.len()
        invariant
            i <= assets.len(),
            out@.len() == i,
            forall|k: int| 0 <= k < i ==> (#[trigger] assets.deep_view()[k]) is Some,
            forall|k: int|
                0 <= k < i ==> Some((#[trigger] out@[k]).deep_view()) == assets.deep_view()[k],
        decreases assets.len() - i,
    {
        match &assets[i] {
            Some(c) => {
                out.push(duplicate_text_coin(c));
            },
            None => {
                assert(assets.deep_view()[i as int] is None);
                return None;
            },
        }
        i = i + 1;
    }
    assert(out.deep_view() =~= tokens(assets.deep_view()));
    Some(out)
}

/// The position of the first token whose denomination equals `denom`
/// (`want_eq`) or differs from it.
fn find_token(assets: &Vec<TextCoin>, denom: &str, want_eq: bool) -> (res: Option<usize>)
    ensures
        match res {
            Some(i) => i < assets.len() && first_match(assets.deep_view(), denom@, want_eq) == Some(
                i as int,
            ),
            None => first_match(assets.deep_view(), denom@, want_eq) is None,
        },
{
    let mut i: usize = 0;
    while i < assets.len()
        invariant
            i <= assets.len(),
            forall|k: int|
                0 <= k < i ==> (#[trigger] assets.deep_view()[k].0 == denom@) != want_eq,
        decreases assets.len() - i,
    {
        if str_eq(assets[i].denom.as_str(), denom) == want_eq {
            proof {
                lemma_first_match(assets.deep_view(), denom@, want_eq, i as int);
            }
            return Some(i);
        }
        i = i + 1;
    }
    proof {
        lemma_first_match(assets.deep_view(), denom@, want_eq, i as int);
    }
    None
}

/// Refuses an IBC transfer of a token that is not an IBC token.
pub fn verify_ibc_parameters(ibc_token: &str, channel_id: &Option<String>) -> (res: Result<
    (),
    ContractError,
>)
    ensures
        result_view(&res) == if channel_id is Some && !contains_seq(ibc_token@, "ibc/"@) {
            Err::<(), ContractErrorView>(ContractErrorView::AssetIsNotIbcToken)
        } else {
            Ok::<(), ContractErrorView>(())
        },
{
    proof {
        reveal_strlit("ibc/");
    }
    if channel_id.is_some() && !str_contains(ibc_token, "ibc/") {
        return Err(ContractError::AssetIsNotIbcToken);
    }
    Ok(())
}

/// Builds the pool swap of `amount_in` of `denom_in` into the pool's other
/// asset, asking for at least nine tenths of the amount back; gives the swap
/// and the denomination it gives out.
fn get_swap_msg(
    pool: &Result<Pool, StdError>,
    contract_address: &str,
    amount_in: u128,
    denom_in: &str,
    channel_id: &Option<String>,
) -> (res: Result<(MsgSwapExactAmountIn, String), ContractError>)
    requires
        swap_arithmetic_ok(result_view(pool), amount_in, denom_in@, channel_id.deep_view()),
    ensures
        result_view(&res) == spec_get_swap_msg(
            result_view(pool),
            contract_address@,
            amount_in,
            denom_in@,
            channel_id.deep_view(),
        ),
{
    let p = match pool {
        Ok(p) => p,
        Err(e) => return Err(ContractError::Std(e.clone_error())),
    };
    let assets = match collect_tokens(&p.pool_assets) {
        Some(a) => a,
        None => return Err(ContractError::CoinIsNotFound),
    };
    let i = match find_token(&assets, denom_in, true) {
        Some(i) => i,
        None => return Err(ContractError::CoinIsNotFound),
    };
    let o = match find_token(&assets, denom_in, false) {
        Some(o) => o,
        None => return Err(ContractError::CoinIsNotFound),
    };
    let asset_in = &assets[i];
    let asset_out = &assets[o];
    match verify_ibc_parameters(asset_out.denom.as_str(), channel_id) {
        Ok(_) => {},
        Err(e) => return Err(e),
    }
    proof {
        lemma_nine_tenths();
    }
    let nine_tenths = str_to_dec("0.9");
    let amount = u128_to_dec(amount_in);
    let pool_amount = str_to_dec(asset_in.amount.as_str());
    proof {
        lemma_ratio_is_one(pool_amount.atomics);
        lemma_scale_back(amount_in as int);
        assert(amount_in * DECIMAL_FRACTIONAL <= u128::MAX);
        assert(900_000_000_000_000_000int * (amount_in as int) <= u128::MAX) by (nonlinear_arith)
            requires
                amount_in * 1_000_000_000_000_000_000int <= u128::MAX,
        ;
    }
    let ratio = decimal_div(pool_amount, pool_amount);
    let scaled = decimal_mul(nine_tenths, amount);
    let min_out = decimal_mul(scaled, ratio);
    let token_out_min_amount = decimal_to_string(min_out);
    let mut routes: Vec<SwapAmountInRoute> = Vec::new();
    push_deep(
        &mut routes,
        SwapAmountInRoute { pool_id: p.id, token_out_denom: str_to_owned(asset_out.denom.as_str()) },
    );
    let msg = MsgSwapExactAmountIn {
        sender: str_to_owned(contract_address),
        routes,
        token_in: Some(TextCoin { denom: str_to_owned(denom_in), amount: u128_to_string(amount_in) }),
        token_out_min_amount,
    };
    assert(msg.deep_view().routes =~= seq![(p.id, asset_out.denom@)]);
    Ok((msg, str_to_owned(asset_out.denom.as_str())))
}


/// Whether the fixed-point arithmetic of `get_swap_msg` stays in range on
/// these arguments: the condition under which it may be called.
fn swap_arithmetic_holds(
    pool: &Result<Pool, StdError>,
    amount_in: u128,
    denom_in: &str,
    channel_id: &Option<String>,
) -> (res: bool)
    ensures
        res == swap_arithmetic_ok(result_view(pool), amount_in, denom_in@, channel_id.deep_view()),
{
    let p = match pool {
        Ok(p) => p,
        Err(_) => return true,
    };
    let assets = match collect_tokens(&p.pool_assets) {
        Some(a) => a,
        None => return true,
    };
    let i = match find_token(&assets, denom_in, true) {
        Some(i) => i,
        None => return true,
    };
    let o = match find_token(&assets, denom_in, false) {
        Some(o) => o,
        None => return true,
    };
    match verify_ibc_parameters(assets[o].denom.as_str(), channel_id) {
        Ok(_) => {},
        Err(_) => return true,
    }
    let limit: u128 = u128::MAX / DECIMAL_FRACTIONAL;
    proof {
        assert(amount_in * DECIMAL_FRACTIONAL <= u128::MAX <==> amount_in <= limit) by (nonlinear_arith)
            requires
                limit == u128::MAX / DECIMAL_FRACTIONAL,
                DECIMAL_FRACTIONAL == 1_000_000_000_000_000_000u128,
        ;
    }
    if amount_in > limit {
        return false;
    }
    match try_str_to_dec(assets[i].amount.as_str()) {
        Some(d) => d.atomics != 0,
        None => false,
    }
}

/// `SwapIn`: the one coin sent is swapped on the pool, and the proceeds queued
/// for the vault. `pool` is the chain's answer to the pool query, `check` its
/// answer on the vault's address.
pub open spec fn spec_try_swap_in(
    s: StateView,
    contract_address: Seq<char>,
    funds: Seq<CoinView>,
    vault_address: Seq<char>,
    pool: Result<PoolView, StdErrorView>,
    check: Result<(), StdErrorView>,
) -> (StateView, Result<ResponseView, ContractErrorView>) {
    match spec_one_coin(funds) {
        Err(e) => (s, Err(payment_failure(e))),
        Ok(coin) => match spec_get_swap_msg(pool, contract_address, coin.amount, coin.denom, None) {
            Err(e) => (s, Err(e)),
            Ok((m, denom_out)) => match check {
                Err(e) => (s, Err(ContractErrorView::Std(e))),
                Ok(_) => (
                    StateView {
                        recipient_parameters: s.recipient_parameters.push(
                            RecipientView {
                                recipient_address: vault_address,
                                channel_id: None,
                                denom_out,
                            },
                        ),
                        ..s
                    },
                    Ok(
                        swap_response(
                            CosmosMsgView::SwapExactAmountIn(m),
                            SWAP_IN_REPLY,
                            "try_swap_in"@,
                        ),
                    ),
                ),
            },
        },
    }
}

/// The arithmetic of `SwapIn` stays in range.
pub open spec fn swap_in_arithmetic_ok(
    funds: Seq<CoinView>,
    pool: Result<PoolView, StdErrorView>,
) -> bool {
    spec_one_coin(funds) matches Ok(coin) ==> swap_arithmetic_ok(
        pool,
        coin.amount,
        coin.denom,
        None,
    )
}

/// Whether `try_swap_in` may be called on these funds and this pool: the
/// test that its caller makes first.
pub fn swap_in_arithmetic_holds(funds: &Vec<Coin>, pool: &Result<Pool, StdError>) -> (res: bool)
    ensures
        res == swap_in_arithmetic_ok(funds.deep_view(), result_view(pool)),
{
    match one_coin(funds) {
        Ok(coin) => swap_arithmetic_holds(pool, coin.amount, coin.denom.as_str(), &None),
        Err(_) => true,
    }
}

/// Swaps the coin sent into the pool's other asset for the vault.
pub fn try_swap_in(
    state: &mut State,
    contract_address: &str,
    funds: &Vec<Coin>,
    vault_address: &str,
    pool: &Result<Pool, StdError>,
    check: &Result<(), StdError>,
) -> (res: Result<Response, ContractError>)
    requires
        swap_in_arithmetic_ok(funds.deep_view(), result_view(pool)),
    ensures
        ({
            let (s2, r) = spec_try_swap_in(
                old(state).deep_view(),
                contract_address@,
                funds.deep_view(),
                vault_address@,
                result_view(pool),
                result_view(check),
            );
            final(state).deep_view() == s2 && result_view(&res) == r
        }),
{
    let coin = match one_coin(funds) {
        Ok(c) => c,
        Err(e) => return Err(ContractError::CustomError { val: e.message() }),
    };
    let (swap_msg, denom_out) = match get_swap_msg(
        pool,
        contract_address,
        coin.amount,
        coin.denom.as_str(),
        &None,
    ) {
        Ok(x) => x,
        Err(e) => return Err(e),
    };
    match check {
        Err(e) => return Err(ContractError::Std(e.clone_error())),
        Ok(_) => {},
    }
    push_deep(
        &mut state.recipient_parameters,
        RecipientParameters {
            recipient_address: str_to_owned(vault_address),
            channel_id: None,
            denom_out,
        },
    );
    let mut response = Response::new();
    response.add_submessage_on_success(CosmosMsg::SwapExactAmountIn(swap_msg), SWAP_IN_REPLY);
    response.add_attribute("action", "try_swap_in");
    assert(response.deep_view().messages =~= swap_response(
        response.deep_view().messages[0].msg,
        SWAP_IN_REPLY,
        "try_swap_in"@,
    ).messages);
    assert(response.deep_view().attributes =~= seq![("action"@, "try_swap_in"@)]);
    assert(response.deep_view().events =~= Seq::<crate::response::EventView>::empty());
    Ok(response)
}

/// `SwapOut`: the native Osmo sent is swapped on the pool, and the proceeds
/// queued for the user.
pub open spec fn spec_try_swap_out(
    s: StateView,
    contract_address: Seq<char>,
    funds: Seq<CoinView>,
    user_address: Seq<char>,
    channel_id: Option<Seq<char>>,
    pool: Result<PoolView, StdErrorView>,
    check: Result<(), StdErrorView>,
) -> (StateView, Result<ResponseView, ContractErrorView>) {
    match spec_must_pay(funds, BASE_DENOM@) {
        Err(e) => (s, Err(payment_failure(e))),
        Ok(amount) => match spec_get_swap_msg(
            pool,
            contract_address,
            amount,
            BASE_DENOM@,
            channel_id,
        ) {
            Err(e) => (s, Err(e)),
            Ok((m, denom_out)) => match check {
                Err(e) => (s, Err(ContractErrorView::Std(e))),
                Ok(_) => (
                    StateView {
                        recipient_parameters: s.recipient_parameters.push(
                            RecipientView { recipient_address: user_address, channel_id, denom_out },
                        ),
                        ..s
                    },
                    Ok(
                        swap_response(
                            CosmosMsgView::SwapExactAmountIn(m),
                            SWAP_OUT_REPLY,
                            "try_swap_out"@,
                        ),
                    ),
                ),
            },
        },
    }
}

/// The arithmetic of `SwapOut` stays in range.
pub open spec fn swap_out_arithmetic_ok(
    funds: Seq<CoinView>,
    channel_id: Option<Seq<char>>,
    pool: Result<PoolView, StdErrorView>,
) -> bool {
    spec_must_pay(funds, BASE_DENOM@) matches Ok(amount) ==> swap_arithmetic_ok(
        pool,
        amount,
        BASE_DENOM@,
        channel_id,
    )
}

/// Whether `try_swap_out` may be called on these funds, this channel and this
/// pool: the test that its caller makes first.
pub fn swap_out_arithmetic_holds(
    funds: &Vec<Coin>,
    channel_id: &Option<String>,
    pool: &Result<Pool, StdError>,
) -> (res: bool)
    ensures
        res == swap_out_arithmetic_ok(funds.deep_view(), channel_id.deep_view(), result_view(pool)),
{
    match must_pay(funds, BASE_DENOM) {
        Ok(amount) => swap_arithmetic_holds(pool, amount, BASE_DENOM, channel_id),
        Err(_) => true,
    }
}

/// Swaps the native Osmo sent into the pool's other asset for the user.
pub fn try_swap_out(
    state: &mut State,
    contract_address: &str,
    funds: &Vec<Coin>,
    user_address: &str,
    channel_id: Option<String>,
    pool: &Result<Pool, StdError>,
    check: &Result<(), StdError>,
) -> (res: Result<Response, ContractError>)
    requires
        swap_out_arithmetic_ok(funds.deep_view(), channel_id.deep_view(), result_view(pool)),
    ensures
        ({
            let (s2, r) = spec_try_swap_out(
                old(state).deep_view(),
                contract_address@,
                funds.deep_view(),
                user_address@,
                channel_id.deep_view(),
                result_view(pool),
                result_view(check),
            );
            final(state).deep_view() == s2 && result_view(&res) == r
        }),
{
    let amount = match must_pay(funds, BASE_DENOM) {
        Ok(a) => a,
        Err(e) => return Err(ContractError::CustomError { val: e.message() }),
    };
    let (swap_msg, denom_out) = match get_swap_msg(
        pool,
        contract_address,
        amount,
        BASE_DENOM,
        &channel_id,
    ) {
        Ok(x) => x,
        Err(e) => return Err(e),
    };
    match check {
        Err(e) => return Err(ContractError::Std(e.clone_error())),
        Ok(_) => {},
    }
    push_deep(
        &mut state.recipient_parameters,
        RecipientParameters { recipient_address: str_to_owned(user_address), channel_id, denom_out },
    );
    let mut response = Response::new();
    response.add_submessage_on_success(CosmosMsg::SwapExactAmountIn(swap_msg), SWAP_OUT_REPLY);
    response.add_attribute("action", "try_swap_out");
    assert(response.deep_view().messages =~= swap_response(
        response.deep_view().messages[0].msg,
        SWAP_OUT_REPLY,
        "try_swap_out"@,
    ).messages);
    assert(response.deep_view().attributes =~= seq![("action"@, "try_swap_out"@)]);
    assert(response.deep_view().events =~= Seq::<crate::response::EventView>::empty());
    Ok(response)
}

/// `UpdateConfig`: the admin, sending no funds, sets the timeout (in minutes).
pub open spec fn spec_try_update_config(
    s: StateView,
    sender: Seq<char>,
    funds: Seq<CoinView>,
    ibc_timeout_in_mins: Option<u8>,
) -> (StateView, Result<ResponseView, ContractErrorView>) {
    match spec_nonpayable(funds) {
        Err(e) => (s, Err(payment_failure(e))),
        Ok(_) => if sender != s.config.admin {
            (s, Err(ContractErrorView::Unauthorized))
        } else {
            match ibc_timeout_in_mins {
                Some(x) => (
                    StateView {
                        config: ConfigView { ibc_timeout: (x * 60) as u64, ..s.config },
                        ..s
                    },
                    Ok(
                        attributes_response(
                            seq![
                                ("action"@, "try_update_config"@),
                                ("ibc_timeout"@, decimal_digits((x * 60) as nat)),
                            ],
                        ),
                    ),
                ),
                None => (s, Ok(attributes_response(seq![("action"@, "try_update_config"@)]))),
            }
        },
    }
}

/// Updates the IBC timeout; only the admin may, and without sending funds.
pub fn try_update_config(
    state: &mut State,
    sender: &str,
    funds: &Vec<Coin>,
    ibc_timeout_in_mins: Option<u8>,
) -> (res: Result<Response, ContractError>)
    ensures
        ({
            let (s2, r) = spec_try_update_config(
                old(state).deep_view(),
                sender@,
                funds.deep_view(),
                ibc_timeout_in_mins,
            );
            final(state).deep_view() == s2 && result_view(&res) == r
        }),
{
    match nonpayable(funds) {
        Ok(_) => {},
        Err(e) => return Err(ContractError::CustomError { val: e.message() }),
    }
    if !str_eq(sender, state.config.admin.as_str()) {
        return Err(ContractError::Unauthorized);
    }
    let mut response = Response::new();
    response.add_attribute("action", "try_update_config");
    if let Some(x) = ibc_timeout_in_mins {
        state.config.ibc_timeout = (x as u64) * 60;
        let text = u128_to_string(state.config.ibc_timeout as u128);
        response.add_attribute("ibc_timeout", text.as_str());
        assert(response.deep_view().attributes =~= seq![
            ("action"@, "try_update_config"@),
            ("ibc_timeout"@, decimal_digits((x * 60) as nat)),
        ]);
    } else {
        assert(response.deep_view().attributes =~= seq![("action"@, "try_update_config"@)]);
    }
    assert(response.deep_view().messages =~= Seq::<SubMsgView>::empty());
    assert(response.deep_view().events =~= Seq::<crate::response::EventView>::empty());
    Ok(response)
}

/// The stored configuration.
pub fn query_config(state: &State) -> (res: Config)
    ensures
        res.deep_view() == state.config.deep_view(),
{
    Config {
        admin: str_to_owned(state.config.admin.as_str()),
        ibc_timeout: state.config.ibc_timeout,
    }
}

/// Migration changes nothing and answers an empty response.
pub fn migrate_contract(_msg: &MigrateMsg) -> (res: Response)
    ensures
        res.deep_view() == crate::response::empty_response(),
{
    Response::new()
}


/// What the chain's protobuf decoding of a swap answer's data gives: the
/// amount out, as text, or the error.
pub uninterp spec fn swap_response_decoded(data: Seq<u8>) -> Result<Seq<char>, StdErrorView>;

/// Calls the `TryFrom<Binary>` of `osmosis_std`'s `MsgSwapExactAmountInResponse`
/// and takes its `token_out_amount`; the outcome is named `swap_response_decoded`.
#[verifier::external_body]
fn decode_swap_response(data: &Vec<u8>) -> (res: Result<String, StdError>)
    ensures
        match res {
            Ok(t) => swap_response_decoded(data@) == Ok::<Seq<char>, StdErrorView>(t@),
            Err(e) => swap_response_decoded(data@) == Err::<Seq<char>, StdErrorView>(
                e.deep_view(),
            ),
        },
{
    let b = cosmwasm_std::Binary::from(data.as_slice());
    match osmosis_std::types::osmosis::gamm::v1beta1::MsgSwapExactAmountInResponse::try_from(b) {
        Ok(r) => Ok(r.token_out_amount),
        Err(cosmwasm_std::StdError::ParseErr { target_type, msg, .. }) => Err(
            StdError::ParseErr { target_type, msg },
        ),
        Err(e) => Err(StdError::Other { text: e.to_string() }),
    }
}

/// What a swap's answer reads as: amount, denomination, recipient address and
/// channel of the pending recipient at the front of the queue, which leaves
/// the queue. `result` is the swap's outcome; `balance` is the chain's answer
/// to the query of the contract's balance in the front recipient's denomination.
pub open spec fn spec_parse_attributes(
    s: StateView,
    result: Result<SubMsgResponseView, Seq<char>>,
    balance: Result<u128, StdErrorView>,
) -> Result<(StateView, (u128, Seq<char>, Seq<char>, Option<Seq<char>>)), ContractErrorView> {
    if s.recipient_parameters.len() == 0 {
        Err(ContractErrorView::RecipientParametersAreNotFound)
    } else {
        let front = s.recipient_parameters[0];
        let s2 = StateView { recipient_parameters: s.recipient_parameters.drop_first(), ..s };
        let decoded = match result {
            Ok(r) => match r.data {
                Some(b) => Some(swap_response_decoded(b)),
                None => None,
            },
            Err(_) => None,
        };
        match decoded {
            None => Err(ContractErrorView::CoinIsNotFound),
            Some(Err(e)) => Err(ContractErrorView::Std(e)),
            Some(Ok(t)) => match spec_parse_u128(t) {
                None => Err(
                    ContractErrorView::Std(
                        StdErrorView::GenericErr {
                            msg: "Parsing u128: "@ + u128_parse_error_text(t),
                        },
                    ),
                ),
                Some(a) => match balance {
                    Err(e) => Err(ContractErrorView::Std(e)),
                    Ok(b) => if b < a {
                        Err(ContractErrorView::BalanceIsNotEnough { symbol: front.denom_out })
                    } else {
                        Ok(
                            (
                                s2,
                                (
                                    a as u128,
                                    front.denom_out,
                                    front.recipient_address,
                                    front.channel_id,
                                ),
                            ),
                        )
                    },
                },
            },
        }
    }
}

/// The recipient at the front of the queue, whose swap answers next.
pub fn pending_recipient(state: &State) -> (res: Option<RecipientParameters>)
    ensures
        res.deep_view() == if state.deep_view().recipient_parameters.len() == 0 {
            None
        } else {
            Some(state.deep_view().recipient_parameters[0])
        },
{
    if state.recipient_parameters.len() == 0 {
        None
    } else {
        Some(state.recipient_parameters[0].duplicate())
    }
}

/// Removes the front of a non-empty queue.
fn pop_front(queue: &mut Vec<RecipientParameters>) -> (res: RecipientParameters)
    requires
        old(queue)@.len() > 0,
    ensures
        res.deep_view() == old(queue).deep_view()[0],
        final(queue).deep_view() == old(queue).deep_view().drop_first(),
{
    let ghost prev = queue.deep_view();
    let front = queue.remove(0);
    assert(queue.deep_view() =~= prev.drop_first());
    front
}

/// Reads a swap's answer for the recipient at the front of the queue, which
/// leaves the queue.
fn parse_attributes(
    state: &mut State,
    result: &Result<SubMsgResponse, String>,
    balance: &Result<u128, StdError>,
) -> (res: Result<(u128, String, String, Option<String>), ContractError>)
    ensures
        match spec_parse_attributes(
            old(state).deep_view(),
            result_view(result),
            result_view(balance),
        ) {
            Ok((s2, out)) => res is Ok && res->Ok_0.deep_view() == out && final(state).deep_view()
                == s2,
            Err(e) => res is Err && res->Err_0.deep_view() == e && final(state).deep_view()
                == old(state).deep_view(),
        },
{
    if state.recipient_parameters.len() == 0 {
        return Err(ContractError::RecipientParametersAreNotFound);
    }
    let front = state.recipient_parameters[0].duplicate();
    let mut amount_out_string: Option<String> = None;
    if let Ok(r) = result {
        if let Some(b) = &r.data {
            match decode_swap_response(b) {
                Ok(t) => {
                    amount_out_string = Some(t);
                },
                Err(e) => return Err(ContractError::Std(e)),
            }
        }
    }
    let text = match amount_out_string {
        Some(t) => t,
        None => return Err(ContractError::CoinIsNotFound),
    };
    let amount_out = match parse_uint128(text.as_str()) {
        Ok(a) => a,
        Err(e) => return Err(ContractError::Std(e)),
    };
    let bal = match balance {
        Ok(b) => *b,
        Err(e) => return Err(ContractError::Std(e.clone_error())),
    };
    if bal < amount_out {
        return Err(ContractError::BalanceIsNotEnough { symbol: front.denom_out });
    }
    let _ = pop_front(&mut state.recipient_parameters);
    Ok((amount_out, front.denom_out, front.recipient_address, front.channel_id))
}

/// The digest attribute's value: `{amount} {denom} {recipient}`.
pub open spec fn digest_text(amount: u128, denom: Seq<char>, recipient: Seq<char>) -> Seq<char> {
    decimal_digits(amount as nat) + " "@ + denom + " "@ + recipient
}

pub(crate) fn digest(amount: u128, denom: &str, recipient: &str) -> (res: String)
    ensures
        res@ == digest_text(amount, denom@, recipient@),
{
    let mut s = u128_to_string(amount);
    s.append(" ");
    s.append(denom);
    s.append(" ");
    s.append(recipient);
    s
}

/// A response that sends `msg` and carries the digest attribute.
pub open spec fn transfer_response(msg: CosmosMsgView, digest: Seq<char>) -> ResponseView {
    ResponseView {
        messages: seq![SubMsgView { id: 0, msg, reply_on: ReplyOn::Never }],
        attributes: seq![("digest"@, digest)],
        events: Seq::empty(),
    }
}

/// The answer of the swap made for `SwapIn`: its proceeds are sent to the
/// vault at the front of the queue.
pub open spec fn spec_swap_in_transfer(
    s: StateView,
    result: Result<SubMsgResponseView, Seq<char>>,
    balance: Result<u128, StdErrorView>,
) -> (StateView, Result<ResponseView, ContractErrorView>) {
    match spec_parse_attributes(s, result, balance) {
        Err(e) => (s, Err(e)),
        Ok((s2, (amount, denom, recipient, _))) => (
            s2,
            Ok(
                transfer_response(
                    CosmosMsgView::BankSend {
                        to_address: recipient,
                        amount: seq![CoinView { denom, amount }],
                    },
                    digest_text(amount, denom, recipient),
                ),
            ),
        ),
    }
}

/// Sends the proceeds of a swap in to the vault.
pub fn swap_in_transfer(
    state: &mut State,
    result: &Result<SubMsgResponse, String>,
    balance: &Result<u128, StdError>,
) -> (res: Result<Response, ContractError>)
    ensures
        ({
            let (s2, r) = spec_swap_in_transfer(
                old(state).deep_view(),
                result_view(result),
                result_view(balance),
            );
            final(state).deep_view() == s2 && result_view(&res) == r
        }),
{
    let (amount, denom, recipient, _) = match parse_attributes(state, result, balance) {
        Ok(x) => x,
        Err(e) => return Err(e),
    };
    let d = digest(amount, denom.as_str(), recipient.as_str());
    let coin = Coin { denom, amount };
    let ghost cv = coin.deep_view();
    let mut coins: Vec<Coin> = Vec::new();
    coins.push(coin);
    assert(coins.deep_view() =~= seq![cv]);
    let mut response = Response::new();
    response.add_message(CosmosMsg::BankSend { to_address: recipient, amount: coins });
    response.add_attribute("digest", d.as_str());
    assert(response.deep_view().messages =~= transfer_response(
        response.deep_view().messages[0].msg,
        d@,
    ).messages);
    assert(response.deep_view().attributes =~= seq![("digest"@, d@)]);
    assert(response.deep_view().events =~= Seq::<crate::response::EventView>::empty());
    Ok(response)
}

/// The answer of the swap made for `SwapOut`: its proceeds are sent to the
/// user at the front of the queue, on this chain or over the user's IBC
/// channel with a timeout `ibc_timeout` seconds after the block time.
pub open spec fn spec_swap_out_transfer(
    s: StateView,
    block_time_nanos: u64,
    result: Result<SubMsgResponseView, Seq<char>>,
    balance: Result<u128, StdErrorView>,
) -> (StateView, Result<ResponseView, ContractErrorView>) {
    match spec_parse_attributes(s, result, balance) {
        Err(e) => (s, Err(e)),
        Ok((s2, (amount, denom, recipient, channel_id))) => {
            let msg = match channel_id {
                None => CosmosMsgView::BankSend {
                    to_address: recipient,
                    amount: seq![CoinView { denom, amount }],
                },
                Some(c) => CosmosMsgView::IbcTransfer {
                    channel_id: c,
                    to_address: recipient,
                    amount: CoinView { denom, amount },
                    timeout_nanos: (block_time_nanos + s.config.ibc_timeout * 1_000_000_000) as u64,
                },
            };
            (s2, Ok(transfer_response(msg, digest_text(amount, denom, recipient))))
        },
    }
}

/// The timeout of an IBC transfer stays in the range of block times.
pub open spec fn transfer_time_ok(
    s: StateView,
    block_time_nanos: u64,
    result: Result<SubMsgResponseView, Seq<char>>,
    balance: Result<u128, StdErrorView>,
) -> bool {
    spec_parse_attributes(s, result, balance) matches Ok((_, (_, _, _, Some(_))))
        ==> block_time_nanos + s.config.ibc_timeout * 1_000_000_000 <= u64::MAX
}

/// Sends the proceeds of a swap out to the user.
pub fn swap_out_transfer(
    state: &mut State,
    block_time_nanos: u64,
    result: &Result<SubMsgResponse, String>,
    balance: &Result<u128, StdError>,
) -> (res: Result<Response, ContractError>)
    requires
        transfer_time_ok(
            old(state).deep_view(),
            block_time_nanos,
            result_view(result),
            result_view(balance),
        ),
    ensures
        ({
            let (s2, r) = spec_swap_out_transfer(
                old(state).deep_view(),
                block_time_nanos,
                result_view(result),
                result_view(balance),
            );
            final(state).deep_view() == s2 && result_view(&res) == r
        }),
{
    let timeout = state.config.ibc_timeout;
    let (amount, denom, recipient, channel_id) = match parse_attributes(state, result, balance) {
        Ok(x) => x,
        Err(e) => return Err(e),
    };
    let d = digest(amount, denom.as_str(), recipient.as_str());
    let coin = Coin { denom, amount };
    let msg = match channel_id {
        None => {
            let ghost cv = coin.deep_view();
            let mut coins: Vec<Coin> = Vec::new();
            coins.push(coin);
            assert(coins.deep_view() =~= seq![cv]);
            CosmosMsg::BankSend { to_address: recipient, amount: coins }
        },
        Some(c) => {
            let t = timestamp_plus_seconds(block_time_nanos, timeout);
            CosmosMsg::IbcTransfer { channel_id: c, to_address: recipient, amount: coin, timeout_nanos: t }
        },
    };
    let mut response = Response::new();
    response.add_message(msg);
    response.add_attribute("digest", d.as_str());
    assert(response.deep_view().messages =~= transfer_response(
        response.deep_view().messages[0].msg,
        d@,
    ).messages);
    assert(response.deep_view().attributes =~= seq![("digest"@, d@)]);
    assert(response.deep_view().events =~= Seq::<crate::response::EventView>::empty());
    Ok(response)
}


/// Whether `swap_out_transfer` may be called: the IBC timeout it would
/// compute stays in the range of block times.
pub fn transfer_time_holds(
    state: &State,
    block_time_nanos: u64,
    result: &Result<SubMsgResponse, String>,
    balance: &Result<u128, StdError>,
) -> (res: bool)
    ensures
        res == transfer_time_ok(
            state.deep_view(),
            block_time_nanos,
            result_view(result),
            result_view(balance),
        ),
{
    if state.recipient_parameters.len() == 0 {
        return true;
    }
    let text = match result {
        Ok(r) => match &r.data {
            Some(b) => match decode_swap_response(b) {
                Ok(t) => t,
                Err(_) => return true,
            },
            None => return true,
        },
        Err(_) => return true,
    };
    let amount_out = match parse_uint128(text.as_str()) {
        Ok(a) => a,
        Err(_) => return true,
    };
    match balance {
        Ok(b) => if *b < amount_out {
            return true;
        },
        Err(_) => return true,
    }
    if state.recipient_parameters[0].channel_id.is_none() {
        return true;
    }
    match state.config.ibc_timeout.checked_mul(1_000_000_000) {
        None => false,
        Some(t) => block_time_nanos.checked_add(t).is_some(),
    }
}

/// Answers a swap out's reply: sends the proceeds on where the timeout stays
/// in range, and gives `None`, changing nothing, where it would not.
pub fn reply_swap_out(
    state: &mut State,
    block_time_nanos: u64,
    result: &Result<SubMsgResponse, String>,
    balance: &Result<u128, StdError>,
) -> (res: Option<Result<Response, ContractError>>)
    ensures
        transfer_time_ok(
            old(state).deep_view(),
            block_time_nanos,
            result_view(result),
            result_view(balance),
        ) ==> ({
            let (s2, r) = spec_swap_out_transfer(
                old(state).deep_view(),
                block_time_nanos,
                result_view(result),
                result_view(balance),
            );
            res is Some && final(state).deep_view() == s2 && result_view(&res->Some_0) == r
        }),
        !transfer_time_ok(
            old(state).deep_view(),
            block_time_nanos,
            result_view(result),
            result_view(balance),
        ) ==> res is None && final(state).deep_view() == old(state).deep_view(),
{
    if transfer_time_holds(state, block_time_nanos, result, balance) {
        Some(swap_out_transfer(state, block_time_nanos, result, balance))
    } else {
        None
    }
}

/// The swap asks for at least nine tenths of the amount in.
pub proof fn law_min_out_is_nine_tenths(amount_in: u128, pool_amount: u128)
    requires
        pool_amount != 0,
        amount_in * DECIMAL_FRACTIONAL <= u128::MAX,
    ensures
        spec_min_out(amount_in, pool_amount) == decimal_text(
            (900_000_000_000_000_000int * amount_in) as u128,
        ),
{
    lemma_ratio_is_one(pool_amount);
    lemma_scale_back(amount_in as int);
}

/// Pending recipients are served first in, first out: a successful transfer
/// pays the recipient at the front of the queue, in its denomination, and
/// removes it; a failed one changes nothing.
pub proof fn law_transfer_serves_front(
    s: StateView,
    block_time_nanos: u64,
    result: Result<SubMsgResponseView, Seq<char>>,
    balance: Result<u128, StdErrorView>,
)
    ensures
        ({
            let (s2, r) = spec_swap_out_transfer(s, block_time_nanos, result, balance);
            &&& r is Err ==> s2 == s
            &&& r is Ok ==> {
                &&& s.recipient_parameters.len() > 0
                &&& s2.recipient_parameters == s.recipient_parameters.drop_first()
                &&& s2.config == s.config
                &&& balance matches Ok(b) && r->Ok_0.messages.len() == 1 && match r->Ok_0.messages[0].msg {
                    CosmosMsgView::BankSend { to_address, amount } => {
                        &&& s.recipient_parameters[0].channel_id is None
                        &&& to_address == s.recipient_parameters[0].recipient_address
                        &&& amount.len() == 1
                        &&& amount[0].denom == s.recipient_parameters[0].denom_out
                        &&& amount[0].amount <= b
                    },
                    CosmosMsgView::IbcTransfer { channel_id, to_address, amount, .. } => {
                        &&& s.recipient_parameters[0].channel_id == Some(channel_id)
                        &&& to_address == s.recipient_parameters[0].recipient_address
                        &&& amount.denom == s.recipient_parameters[0].denom_out
                        &&& amount.amount <= b
                    },
                    _ => false,
                }
            }
        }),
{
}

/// A swap into the vault followed by its answer, on an empty queue, sends the
/// proceeds to the vault and leaves the queue empty again.
pub proof fn law_swap_in_then_transfer_pays_vault(
    s: StateView,
    contract_address: Seq<char>,
    funds: Seq<CoinView>,
    vault_address: Seq<char>,
    pool: Result<PoolView, StdErrorView>,
    check: Result<(), StdErrorView>,
    result: Result<SubMsgResponseView, Seq<char>>,
    balance: Result<u128, StdErrorView>,
)
    requires
        s.recipient_parameters.len() == 0,
        spec_try_swap_in(s, contract_address, funds, vault_address, pool, check).1 is Ok,
        spec_swap_in_transfer(
            spec_try_swap_in(s, contract_address, funds, vault_address, pool, check).0,
            result,
            balance,
        ).1 is Ok,
    ensures
        ({
            let s1 = spec_try_swap_in(s, contract_address, funds, vault_address, pool, check).0;
            let (s2, r) = spec_swap_in_transfer(s1, result, balance);
            &&& s2.recipient_parameters.len() == 0
            &&& r->Ok_0.messages[0].msg matches CosmosMsgView::BankSend { to_address, .. }
                && to_address == vault_address
        }),
{
    let s1 = spec_try_swap_in(s, contract_address, funds, vault_address, pool, check).0;
    assert(s1.recipient_parameters.drop_first() =~= Seq::<RecipientView>::empty());
}

/// A swap out that asks for an IBC transfer only succeeds for an IBC token.
pub proof fn law_ibc_only_for_ibc_tokens(
    s: StateView,
    contract_address: Seq<char>,
    funds: Seq<CoinView>,
    user_address: Seq<char>,
    channel_id: Option<Seq<char>>,
    pool: Result<PoolView, StdErrorView>,
    check: Result<(), StdErrorView>,
)
    requires
        channel_id is Some,
        spec_try_swap_out(s, contract_address, funds, user_address, channel_id, pool, check).1 is Ok,
    ensures
        contains_seq(
            spec_try_swap_out(
                s,
                contract_address,
                funds,
                user_address,
                channel_id,
                pool,
                check,
            ).0.recipient_parameters.last().denom_out,
            "ibc/"@,
        ),
{
}

/// An update by the admin, sending no funds, succeeds: the timeout becomes
/// the minutes given times sixty, and the rest stays as it was.
pub proof fn law_admin_update_takes_effect(
    s: StateView,
    funds: Seq<CoinView>,
    ibc_timeout_in_mins: Option<u8>,
)
    requires
        funds.len() == 0,
    ensures
        ({
            let (s2, r) = spec_try_update_config(s, s.config.admin, funds, ibc_timeout_in_mins);
            &&& r is Ok
            &&& s2.config.ibc_timeout == match ibc_timeout_in_mins {
                Some(x) => x * 60,
                None => s.config.ibc_timeout as int,
            }
            &&& s2.config.admin == s.config.admin
            &&& s2.recipient_parameters == s.recipient_parameters
        }),
{
}

/// Only the admin, sending no funds, changes the configuration; the timeout
/// stays a whole number of minutes that fits in a byte.
pub proof fn law_update_config(
    s: StateView,
    sender: Seq<char>,
    funds: Seq<CoinView>,
    ibc_timeout_in_mins: Option<u8>,
)
    requires
        timeout_ok(s.config.ibc_timeout),
    ensures
        ({
            let (s2, r) = spec_try_update_config(s, sender, funds, ibc_timeout_in_mins);
            &&& (sender != s.config.admin || funds.len() > 0) ==> s2 == s && r is Err
            &&& timeout_ok(s2.config.ibc_timeout)
            &&& s2.config.admin == s.config.admin
            &&& s2.recipient_parameters == s.recipient_parameters
        }),
{
}

/// One call of the contract, with the chain's answers it gets, as the laws on
/// sequences of calls see it.
pub enum Call {
    SwapIn {
        contract_address: Seq<char>,
        funds: Seq<CoinView>,
        vault_address: Seq<char>,
        pool: Result<PoolView, StdErrorView>,
        check: Result<(), StdErrorView>,
    },
    SwapOut {
        contract_address: Seq<char>,
        funds: Seq<CoinView>,
        user_address: Seq<char>,
        channel_id: Option<Seq<char>>,
        pool: Result<PoolView, StdErrorView>,
        check: Result<(), StdErrorView>,
    },
    SwapInReply { result: Result<SubMsgResponseView, Seq<char>>, balance: Result<u128, StdErrorView> },
    SwapOutReply {
        block_time_nanos: u64,
        result: Result<SubMsgResponseView, Seq<char>>,
        balance: Result<u128, StdErrorView>,
    },
    UpdateConfig { sender: Seq<char>, funds: Seq<CoinView>, ibc_timeout_in_mins: Option<u8> },
}

/// The state and the result of one call.
pub open spec fn call_outcome(s: StateView, c: Call) -> (StateView, Result<ResponseView, ContractErrorView>) {
    match c {
        Call::SwapIn { contract_address, funds, vault_address, pool, check } => spec_try_swap_in(
            s,
            contract_address,
            funds,
            vault_address,
            pool,
            check,
        ),
        Call::SwapOut { contract_address, funds, user_address, channel_id, pool, check } => {
            spec_try_swap_out(s, contract_address, funds, user_address, channel_id, pool, check)
        },
        Call::SwapInReply { result, balance } => spec_swap_in_transfer(s, result, balance),
        Call::SwapOutReply { block_time_nanos, result, balance } => spec_swap_out_transfer(
            s,
            block_time_nanos,
            result,
            balance,
        ),
        Call::UpdateConfig { sender, funds, ibc_timeout_in_mins } => spec_try_update_config(
            s,
            sender,
            funds,
            ibc_timeout_in_mins,
        ),
    }
}

/// The denomination of the first asset of the pool that is not `denom`: what
/// a swap of `denom` on the pool gives out.
pub open spec fn other_denom(pool: Result<PoolView, StdErrorView>, denom: Seq<char>) -> Seq<char> {
    match pool {
        Ok(p) => {
            let assets = tokens(p.pool_assets);
            match first_match(assets, denom, false) {
                Some(o) => assets[o].0,
                None => Seq::empty(),
            }
        },
        Err(_) => Seq::empty(),
    }
}

/// The recipients that a call asks to be paid: for a successful swap, the
/// vault or the user, with the channel asked for and the denomination the
/// pool gives out.
pub open spec fn queued(s: StateView, c: Call) -> Seq<RecipientView> {
    if call_outcome(s, c).1 is Err {
        Seq::empty()
    } else {
        match c {
            Call::SwapIn { funds, vault_address, pool, .. } => seq![
                RecipientView {
                    recipient_address: vault_address,
                    channel_id: None,
                    denom_out: other_denom(pool, funds[0].denom),
                },
            ],
            Call::SwapOut { user_address, channel_id, pool, .. } => seq![
                RecipientView {
                    recipient_address: user_address,
                    channel_id,
                    denom_out: other_denom(pool, BASE_DENOM@),
                },
            ],
            _ => Seq::empty(),
        }
    }
}

/// Who a transfer message pays, and in which denomination.
pub open spec fn payee(msg: CosmosMsgView) -> (Seq<char>, Seq<char>) {
    match msg {
        CosmosMsgView::BankSend { to_address, amount } => (to_address, amount[0].denom),
        CosmosMsgView::IbcTransfer { to_address, amount, .. } => (to_address, amount.denom),
        _ => (Seq::empty(), Seq::empty()),
    }
}

/// Who the recipients of a queue are to be paid and in which denomination, in order.
pub open spec fn routes(q: Seq<RecipientView>) -> Seq<(Seq<char>, Seq<char>)> {
    q.map_values(|r: RecipientView| (r.recipient_address, r.denom_out))
}

/// Who a call pays and in which denomination: for a successful reply, what
/// its transfer message pays.
pub open spec fn paid(s: StateView, c: Call) -> Seq<(Seq<char>, Seq<char>)> {
    match c {
        Call::SwapInReply { .. } | Call::SwapOutReply { .. } => match call_outcome(s, c).1 {
            Ok(r) => seq![payee(r.messages[0].msg)],
            Err(_) => Seq::empty(),
        },
        _ => Seq::empty(),
    }
}

/// The state after a sequence of calls.
pub open spec fn run(s: StateView, calls: Seq<Call>) -> StateView
    decreases calls.len(),
{
    if calls.len() == 0 {
        s
    } else {
        run(call_outcome(s, calls[0]).0, calls.drop_first())
    }
}

/// The recipients that a sequence of calls asks to be paid, in order.
pub open spec fn queued_by(s: StateView, calls: Seq<Call>) -> Seq<RecipientView>
    decreases calls.len(),
{
    if calls.len() == 0 {
        Seq::empty()
    } else {
        queued(s, calls[0]) + queued_by(call_outcome(s, calls[0]).0, calls.drop_first())
    }
}

/// Who a sequence of calls pays and in which denomination, in order.
pub open spec fn paid_by(s: StateView, calls: Seq<Call>) -> Seq<(Seq<char>, Seq<char>)>
    decreases calls.len(),
{
    if calls.len() == 0 {
        Seq::empty()
    } else {
        paid(s, calls[0]) + paid_by(call_outcome(s, calls[0]).0, calls.drop_first())
    }
}

proof fn lemma_call_keeps_order(s: StateView, c: Call)
    ensures
        routes(s.recipient_parameters) + routes(queued(s, c)) == paid(s, c) + routes(
            call_outcome(s, c).0.recipient_parameters,
        ),
{
    let (s2, r) = call_outcome(s, c);
    let q = s.recipient_parameters;
    let none = Seq::<(Seq<char>, Seq<char>)>::empty();
    if r is Err {
        assert(routes(queued(s, c)) =~= none);
        assert(routes(q) + none =~= routes(q));
        assert(none + routes(q) =~= routes(q));
    } else {
        match c {
            Call::SwapInReply { .. } => {
                assert(routes(queued(s, c)) =~= none);
                assert(routes(s2.recipient_parameters) =~= routes(q).drop_first());
                assert(routes(q) =~= seq![routes(q)[0]] + routes(q).drop_first());
                assert(routes(q) + none =~= routes(q));
            },
            Call::SwapOutReply { .. } => {
                assert(routes(queued(s, c)) =~= none);
                assert(routes(s2.recipient_parameters) =~= routes(q).drop_first());
                assert(routes(q) =~= seq![routes(q)[0]] + routes(q).drop_first());
                assert(routes(q) + none =~= routes(q));
            },
            Call::UpdateConfig { .. } => {
                assert(routes(queued(s, c)) =~= none);
                assert(routes(q) + none =~= routes(q));
                assert(none + routes(q) =~= routes(q));
            },
            _ => {
                assert(s2.recipient_parameters =~= q + queued(s, c));
                assert(routes(q + queued(s, c)) =~= routes(q) + routes(queued(s, c)));
                assert(none + routes(s2.recipient_parameters) =~= routes(s2.recipient_parameters));
            },
        }
    }
}

/// Pending recipients are served first in, first out over any sequence of
/// calls, swaps, replies and updates interleaved as they may be: the
/// recipients queued at the start followed by every recipient the successful
/// swaps asked for, each with its denomination, are who the successful replies
/// paid and in which denomination, in the order they were paid, followed by
/// the queue left at the end. From an empty queue the k-th successful reply
/// pays the recipient of the k-th successful swap, in the denomination the
/// pool gives out.
pub proof fn law_queue_first_in_first_out(s: StateView, calls: Seq<Call>)
    ensures
        routes(s.recipient_parameters) + routes(queued_by(s, calls)) == paid_by(s, calls) + routes(
            run(s, calls).recipient_parameters,
        ),
        paid_by(s, calls) == (routes(s.recipient_parameters) + routes(queued_by(s, calls))).take(
            paid_by(s, calls).len() as int,
        ),
    decreases calls.len(),
{
    let none = Seq::<(Seq<char>, Seq<char>)>::empty();
    if calls.len() == 0 {
        assert(routes(queued_by(s, calls)) =~= none);
        assert(routes(s.recipient_parameters) + none =~= routes(s.recipient_parameters));
        assert(none + routes(s.recipient_parameters) =~= routes(s.recipient_parameters));
    } else {
        let c = calls[0];
        let s1 = call_outcome(s, c).0;
        let rest = calls.drop_first();
        lemma_call_keeps_order(s, c);
        law_queue_first_in_first_out(s1, rest);
        assert(routes(queued_by(s, calls)) =~= routes(queued(s, c)) + routes(queued_by(s1, rest)));
        assert(routes(s.recipient_parameters) + routes(queued_by(s, calls)) =~= (routes(
            s.recipient_parameters,
        ) + routes(queued(s, c))) + routes(queued_by(s1, rest)));
        assert(paid_by(s, calls) + routes(run(s, calls).recipient_parameters) =~= paid(s, c) + (
        paid_by(s1, rest) + routes(run(s1, rest).recipient_parameters)));
    }
    let all = routes(s.recipient_parameters) + routes(queued_by(s, calls));
    assert(all.take(paid_by(s, calls).len() as int) =~= paid_by(s, calls));
}

/// The amount out that a swap's answer reports: its data decoded, read as an
/// integer.
pub open spec fn reported_amount(result: Result<SubMsgResponseView, Seq<char>>) -> Option<nat> {
    match result {
        Ok(r) => match r.data {
            Some(d) => match swap_response_decoded(d) {
                Ok(t) => spec_parse_u128(t),
                Err(_) => None,
            },
            None => None,
        },
        Err(_) => None,
    }
}

/// The coin a transfer message pays.
pub open spec fn paid_coin(msg: CosmosMsgView) -> Option<CoinView> {
    match msg {
        CosmosMsgView::BankSend { amount, .. } => if amount.len() == 1 {
            Some(amount[0])
        } else {
            None
        },
        CosmosMsgView::IbcTransfer { amount, .. } => Some(amount),
        _ => None,
    }
}

/// A successful reply, to a swap in or a swap out, pays exactly the amount out
/// that the swap's answer reports, in the denomination queued for the
/// recipient at the front, whatever else the contract holds: the balance only
/// decides whether it may be paid, and must cover it.
pub proof fn law_transfer_pays_amount_out(
    s: StateView,
    block_time_nanos: u64,
    result: Result<SubMsgResponseView, Seq<char>>,
    balance: Result<u128, StdErrorView>,
)
    ensures
        spec_swap_out_transfer(s, block_time_nanos, result, balance).1 is Ok ==> {
            let r = spec_swap_out_transfer(s, block_time_nanos, result, balance).1->Ok_0;
            &&& reported_amount(result) is Some
            &&& r.messages.len() == 1
            &&& paid_coin(r.messages[0].msg) == Some(
                CoinView {
                    denom: s.recipient_parameters[0].denom_out,
                    amount: reported_amount(result)->0 as u128,
                },
            )
            &&& balance matches Ok(b) && reported_amount(result)->0 <= b
        },
        spec_swap_in_transfer(s, result, balance).1 is Ok ==> {
            let r = spec_swap_in_transfer(s, result, balance).1->Ok_0;
            &&& reported_amount(result) is Some
            &&& r.messages.len() == 1
            &&& paid_coin(r.messages[0].msg) == Some(
                CoinView {
                    denom: s.recipient_parameters[0].denom_out,
                    amount: reported_amount(result)->0 as u128,
                },
            )
            &&& balance matches Ok(b) && reported_amount(result)->0 <= b
        },
{
}

/// Two replies to the same swap that differ only in the contract's balance,
/// and both succeed, pay the same: the balance gates the reply and never sets
/// what it pays.
pub proof fn law_transfer_independent_of_balance(
    s: StateView,
    block_time_nanos: u64,
    result: Result<SubMsgResponseView, Seq<char>>,
    b1: u128,
    b2: u128,
)
    ensures
        spec_swap_out_transfer(s, block_time_nanos, result, Ok(b1)).1 is Ok
            && spec_swap_out_transfer(s, block_time_nanos, result, Ok(b2)).1 is Ok
            ==> spec_swap_out_transfer(s, block_time_nanos, result, Ok(b1))
            == spec_swap_out_transfer(s, block_time_nanos, result, Ok(b2)),
        spec_swap_in_transfer(s, result, Ok(b1)).1 is Ok && spec_swap_in_transfer(
            s,
            result,
            Ok(b2),
        ).1 is Ok ==> spec_swap_in_transfer(s, result, Ok(b1)) == spec_swap_in_transfer(
            s,
            result,
            Ok(b2),
        ),
{
}

/// The pool swap a successful swap asks for is the contract's own: its sender
/// is the contract, it puts in exactly the amount sent, in the denomination
/// sent, and routes it through the pool to the pool's other asset; the reply
/// comes back with the swap's identifier.
pub open spec fn contract_swap(
    r: ResponseView,
    id: u64,
    contract_address: Seq<char>,
    denom_in: Seq<char>,
    amount_in: u128,
    pool: Result<PoolView, StdErrorView>,
) -> bool {
    &&& r.messages.len() == 1
    &&& r.messages[0].id == id
    &&& r.messages[0].reply_on == ReplyOn::Success
    &&& r.messages[0].msg matches CosmosMsgView::SwapExactAmountIn(m)
    &&& m.sender == contract_address
    &&& m.token_in == Some((denom_in, decimal_digits(amount_in as nat)))
    &&& pool matches Ok(p)
    &&& m.routes == seq![(p.id, other_denom(pool, denom_in))]
}

/// A successful swap, in or out, asks the pool for a swap sent by the
/// contract itself, of the coin sent, to the pool's other asset.
pub proof fn law_swap_is_the_contracts(
    s: StateView,
    contract_address: Seq<char>,
    funds: Seq<CoinView>,
    address: Seq<char>,
    channel_id: Option<Seq<char>>,
    pool: Result<PoolView, StdErrorView>,
    check: Result<(), StdErrorView>,
)
    ensures
        ({
            let r = spec_try_swap_in(s, contract_address, funds, address, pool, check).1;
            r is Ok ==> contract_swap(
                r->Ok_0,
                SWAP_IN_REPLY,
                contract_address,
                funds[0].denom,
                funds[0].amount,
                pool,
            )
        }),
        ({
            let r = spec_try_swap_out(s, contract_address, funds, address, channel_id, pool, check).1;
            r is Ok ==> contract_swap(
                r->Ok_0,
                SWAP_OUT_REPLY,
                contract_address,
                BASE_DENOM@,
                funds[0].amount,
                pool,
            )
        }),
{
}

/// A successful swap of `amount_in`, in or out, asks the pool for at least
/// nine tenths of it back: the minimum out is the decimal text of
/// `0.9 * amount_in`.
pub proof fn law_swap_asks_nine_tenths(
    s: StateView,
    contract_address: Seq<char>,
    funds: Seq<CoinView>,
    address: Seq<char>,
    channel_id: Option<Seq<char>>,
    pool: Result<PoolView, StdErrorView>,
    check: Result<(), StdErrorView>,
)
    ensures
        ({
            let r = spec_try_swap_in(s, contract_address, funds, address, pool, check).1;
            swap_in_arithmetic_ok(funds, pool) && r is Ok ==> (r->Ok_0.messages[0].msg
                matches CosmosMsgView::SwapExactAmountIn(m) && m.token_out_min_amount
                == decimal_text((900_000_000_000_000_000int * funds[0].amount) as u128))
        }),
        ({
            let r = spec_try_swap_out(s, contract_address, funds, address, channel_id, pool, check).1;
            swap_out_arithmetic_ok(funds, channel_id, pool) && r is Ok ==> (r->Ok_0.messages[0].msg
                matches CosmosMsgView::SwapExactAmountIn(m) && m.token_out_min_amount
                == decimal_text((900_000_000_000_000_000int * funds[0].amount) as u128))
        }),
{
    if let Ok(p) = pool {
        let assets = tokens(p.pool_assets);
        if funds.len() > 0 {
            if let Some(i) = first_match(assets, funds[0].denom, true) {
                if let Some(v) = spec_decimal_from_str(assets[i].1) {
                    if v != 0 && funds[0].amount * DECIMAL_FRACTIONAL <= u128::MAX {
                        law_min_out_is_nine_tenths(funds[0].amount, v);
                    }
                }
            }
            if let Some(i) = first_match(assets, BASE_DENOM@, true) {
                if let Some(v) = spec_decimal_from_str(assets[i].1) {
                    if v != 0 && funds[0].amount * DECIMAL_FRACTIONAL <= u128::MAX {
                        law_min_out_is_nine_tenths(funds[0].amount, v);
                    }
                }
            }
        }
    }
}

/// An IBC transfer of a reply times out the configured number of seconds
/// after the block time of the reply.
pub proof fn law_transfer_ibc_timeout(
    s: StateView,
    block_time_nanos: u64,
    result: Result<SubMsgResponseView, Seq<char>>,
    balance: Result<u128, StdErrorView>,
)
    requires
        transfer_time_ok(s, block_time_nanos, result, balance),
    ensures
        spec_swap_out_transfer(s, block_time_nanos, result, balance).1 is Ok ==> (spec_swap_out_transfer(s, block_time_nanos, result, balance).1->Ok_0.messages[0].msg matches CosmosMsgView::IbcTransfer {
            timeout_nanos,
            ..
        } ==> timeout_nanos == block_time_nanos + s.config.ibc_timeout * 1_000_000_000),
{
}

} // verus!
