//! The Kujira aggregator: swaps through the router contract on the user's
//! behalf and records, in order, where each swap's proceeds are to go.
use vstd::prelude::*;

use crate::coin::{
    duplicate_coins, must_pay, nonpayable, one_coin, payment_error_text, spec_coin_from_str,
    spec_must_pay, spec_nonpayable, spec_one_coin, Coin, CoinView,
};
use crate::converters::{get_addr_by_prefix, spec_get_addr_by_prefix};
use crate::error::{ContractError, ContractErrorView, StdError, StdErrorView};
use crate::mantaswap::{duplicate_stages, ExecuteMsg as MantaswapMsg, ExecuteMsgView as MantaswapMsgView};
use crate::aggregator::{
    first_event, parse_defined, parse_recipient_amount_denom, spec_parse_recipient_amount_denom,
};
use crate::osmosis::{digest, digest_text, transfer_response};
use crate::response::{
    timestamp_plus_seconds, CosmosMsg, CosmosMsgView, ReplyOn, Response, ResponseView, SubMsgResponse,
    SubMsgResponseView, SubMsgView,
};
use crate::text::{
    before_char, contains_seq, decimal_digits, duplicate_opt_string, result_view, str_before_char,
    push_deep, str_contains, str_eq, str_to_owned, u128_to_string,
};
use crate::types::{RecipientParameters, RecipientView};

verus! {

/// Default IBC timeout, in minutes.
pub const TIMEOUT_IN_MINS: u8 = 15;

/// The native denomination of Kujira.
pub const BASE_DENOM: &'static str = "ukuji";

/// The address prefix of Kujira.
pub const BASE_PREFIX: &'static str = "kujira";

/// The chain identifier of the development network.
pub const CHAIN_ID_DEV: &'static str = "devnet-1";

/// Reply identifier of the swap made for `SwapIn`.
pub const SWAP_IN_REPLY: u64 = 1;

/// Reply identifier of the swap made for `SwapOut`.
pub const SWAP_OUT_REPLY: u64 = 2;

/// The contract's configuration.
#[derive(Debug, Clone, PartialEq, Eq)]
pub struct Config {
    pub admin: String,
    pub router: String,
    /// IBC timeout in seconds.
    pub ibc_timeout: u64,
    pub chain_id: String,
}

pub struct ConfigView {
    pub admin: Seq<char>,
    pub router: Seq<char>,
    pub ibc_timeout: u64,
    pub chain_id: Seq<char>,
}

impl DeepView for Config {
    type V = ConfigView;

    open spec fn deep_view(&self) -> ConfigView {
        ConfigView {
            admin: self.admin@,
            router: self.router@,
            ibc_timeout: self.ibc_timeout,
            chain_id: self.chain_id@,
        }
    }
}

impl Config {
    /// A configuration with the default timeout of 15 minutes.
    pub fn new(admin: &str, router: &str, chain_id: &str) -> (res: Config)
        ensures
            res.deep_view() == (ConfigView {
                admin: admin@,
                router: router@,
                ibc_timeout: 900,
                chain_id: chain_id@,
            }),
    {
        Config {
            admin: str_to_owned(admin),
            router: str_to_owned(router),
            ibc_timeout: (TIMEOUT_IN_MINS as u64) * 60,
            chain_id: str_to_owned(chain_id),
        }
    }
}

/// A timeout is a whole number of minutes that fits in a byte.
pub open spec fn timeout_ok(ibc_timeout: u64) -> bool {
    ibc_timeout % 60 == 0 && ibc_timeout <= 255 * 60
}

/// The contract's stored state: its configuration and the queue of pending recipients.
#[derive(Debug, Clone, PartialEq, Eq)]
pub struct State {
    pub config: Config,
    pub recipient_parameters: Vec<RecipientParameters>,
}

pub struct StateView {
    pub config: ConfigView,
    pub recipient_parameters: Seq<RecipientView>,
}

impl DeepView for State {
    type V = StateView;

    open spec fn deep_view(&self) -> StateView {
        StateView {
            config: self.config.deep_view(),
            recipient_parameters: self.recipient_parameters.deep_view(),
        }
    }
}

/// Message that creates the contract.
#[derive(Debug, Clone, PartialEq, Eq)]
pub struct InstantiateMsg {
    pub owner_address: String,
    pub vault_address: String,
    pub router_address: String,
}

/// Messages the contract executes.
#[derive(Debug, Clone, PartialEq, Eq)]
pub enum ExecuteMsg {
    /// Called by a user: swap a token into native Kuji and send it to the vault.
    SwapIn { vault_address: String, mantaswap_msg: MantaswapMsg },
    /// Called by the vault: swap native Kuji into a token and send it to the
    /// user on Kujira or, over `channel_id`, on another network.
    SwapOut { user_address: String, mantaswap_msg: MantaswapMsg, channel_id: Option<String> },
    /// Called by the owner.
    UpdateVault { vault_address: String },
    /// Called by the admin.
    UpdateConfig {
        owner_address: Option<String>,
        vault_address: Option<String>,
        ibc_timeout_in_mins: Option<u8>,
        router_address: Option<String>,
    },
}

/// Queries the contract answers.
#[derive(Debug, Clone, PartialEq, Eq)]
pub enum QueryMsg {
    QueryConfig,
}

/// Message that migrates the contract: it has no value, so no migration is accepted.
pub type MigrateMsg = core::convert::Infallible;

/// The text of a payment error, as a contract error.
pub open spec fn payment_failure(e: crate::coin::PaymentErrorView) -> ContractErrorView {
    ContractErrorView::CustomError { val: payment_error_text(e) }
}

/// The string the chain must validate before `recipient` is accepted: the
/// recipient itself on the development network; elsewhere its Kujira form,
/// or the recipient itself when it is not a bech32 address that can take the
/// Kujira prefix (the chain's own validation then decides).
pub open spec fn spec_address_to_validate(chain_id: Seq<char>, recipient: Seq<char>) -> Seq<char> {
    if chain_id == CHAIN_ID_DEV@ {
        recipient
    } else {
        match spec_get_addr_by_prefix(recipient, BASE_PREFIX@) {
            Ok(a) => a,
            Err(_) => recipient,
        }
    }
}

/// The address that the chain must validate before `recipient` is accepted.
pub fn address_to_validate(chain_id: &str, recipient: &str) -> (res: String)
    ensures
        res@ == spec_address_to_validate(chain_id@, recipient@),
{
    proof {
        reveal_strlit("devnet-1");
    }
    if str_eq(chain_id, CHAIN_ID_DEV) {
        str_to_owned(recipient)
    } else {
        match get_addr_by_prefix(recipient, BASE_PREFIX) {
            Ok(a) => a,
            Err(_) => str_to_owned(recipient),
        }
    }
}

/// Checks the swap message and the IBC parameters of a recipient, and gives
/// the recipient's address. `check` is what the chain answered when asked to
/// validate `spec_address_to_validate(chain_id, recipient)`, for the chain
/// the call runs on.
pub open spec fn spec_verify_ibc_parameters(
    msg: MantaswapMsgView,
    channel_id: Option<Seq<char>>,
    recipient: Seq<char>,
    check: Result<(), StdErrorView>,
) -> Result<Seq<char>, ContractErrorView> {
    match msg {
        MantaswapMsgView::Swap { min_return: Some(coins), .. } => {
            if coins.len() == 0 {
                Err(ContractErrorView::CoinIsNotFound)
            } else {
                let denom = coins[0].denom;
                let prefix = before_char(recipient, '1');
                if channel_id is Some && !contains_seq(denom, "ibc/"@) {
                    Err(ContractErrorView::AssetIsNotIbcToken)
                } else if channel_id is Some && prefix == BASE_PREFIX@ {
                    Err(
                        ContractErrorView::WrongIbcParameters {
                            prefix,
                            ibc_token: denom,
                            channel_id,
                        },
                    )
                } else {
                    match check {
                        Err(e) => Err(ContractErrorView::Std(e)),
                        Ok(_) => Ok(recipient),
                    }
                }
            }
        },
        _ => Err(ContractErrorView::WrongMantaswapMsg),
    }
}

/// Checks that the swap message asks for a minimum return, that an IBC
/// transfer is only asked for an IBC token and for a recipient outside Kujira,
/// and that the recipient's address is valid; gives the recipient's address.
pub fn verify_ibc_parameters(
    mantaswap_msg: &MantaswapMsg,
    channel_id: &Option<String>,
    recipient_address: &str,
    check: &Result<(), StdError>,
) -> (res: Result<String, ContractError>)
    ensures
        result_view(&res) == spec_verify_ibc_parameters(
            mantaswap_msg.deep_view(),
            channel_id.deep_view(),
            recipient_address@,
            result_view(check),
        ),
{
    let prefix = str_before_char(recipient_address, '1');
    match mantaswap_msg {
        MantaswapMsg::Swap { min_return: Some(coins), .. } => {
            if coins.len() == 0 {
                return Err(ContractError::CoinIsNotFound);
            }
            let denom = &coins[0].denom;
            assert(coins.deep_view()[0].denom == denom@);
            proof {
                reveal_strlit("ibc/");
                reveal_strlit("kujira");
            }
            if channel_id.is_some() && !str_contains(denom.as_str(), "ibc/") {
                return Err(ContractError::AssetIsNotIbcToken);
            }
            if channel_id.is_some() && str_eq(prefix.as_str(), BASE_PREFIX) {
                return Err(
                    ContractError::WrongIbcParameters {
                        prefix,
                        ibc_token: str_to_owned(denom.as_str()),
                        channel_id: duplicate_opt_string(channel_id),
                    },
                );
            }
            match check {
                Err(e) => Err(ContractError::Std(e.clone_error())),
                Ok(_) => Ok(str_to_owned(recipient_address)),
            }
        },
        _ => Err(ContractError::WrongMantaswapMsg),
    }
}


/// The swap that `get_wasm_msg` asks the router for, and the state with the
/// recipient queued at the back.
pub open spec fn spec_get_wasm_msg(
    s: StateView,
    contract_address: Seq<char>,
    recipient: Seq<char>,
    msg: MantaswapMsgView,
    funds: Seq<CoinView>,
    channel_id: Option<Seq<char>>,
    check: Result<(), StdErrorView>,
) -> Result<(StateView, CosmosMsgView), ContractErrorView> {
    match spec_verify_ibc_parameters(msg, channel_id, recipient, check) {
        Err(e) => Err(e),
        Ok(address) => match msg {
            MantaswapMsgView::Swap { stages, min_return: Some(coins), .. } => Ok(
                (
                    StateView {
                        recipient_parameters: s.recipient_parameters.push(
                            RecipientView {
                                recipient_address: address,
                                channel_id,
                                denom_out: coins[0].denom,
                            },
                        ),
                        ..s
                    },
                    CosmosMsgView::WasmExecute {
                        contract_addr: s.config.router,
                        msg: MantaswapMsgView::Swap {
                            stages,
                            recipient: Some(contract_address),
                            min_return: Some(coins),
                        },
                        funds,
                    },
                ),
            ),
            _ => Err(ContractErrorView::WrongMantaswapMsg),
        },
    }
}

/// Builds the router call for a swap whose proceeds go to `recipient_address`,
/// and queues the recipient.
fn get_wasm_msg(
    state: &mut State,
    contract_address: &str,
    recipient_address: &str,
    mantaswap_msg: &MantaswapMsg,
    funds: Vec<Coin>,
    channel_id: &Option<String>,
    check: &Result<(), StdError>,
) -> (res: Result<CosmosMsg, ContractError>)
    ensures
        match spec_get_wasm_msg(
            old(state).deep_view(),
            contract_address@,
            recipient_address@,
            mantaswap_msg.deep_view(),
            funds.deep_view(),
            channel_id.deep_view(),
            result_view(check),
        ) {
            Ok((s2, m)) => res is Ok && res->Ok_0.deep_view() == m && final(state).deep_view()
                == s2,
            Err(e) => res is Err && res->Err_0.deep_view() == e && final(state).deep_view()
                == old(state).deep_view(),
        },
{
    let router = str_to_owned(state.config.router.as_str());
    let address = match verify_ibc_parameters(
        mantaswap_msg,
        channel_id,
        recipient_address,
        check,
    ) {
        Ok(a) => a,
        Err(e) => return Err(e),
    };
    match mantaswap_msg {
        MantaswapMsg::Swap { stages, min_return: Some(coins), .. } => {
            let denom_out = str_to_owned(coins[0].denom.as_str());
            let swap_msg = MantaswapMsg::Swap {
                stages: duplicate_stages(stages),
                recipient: Some(str_to_owned(contract_address)),
                min_return: Some(duplicate_coins(coins)),
            };
            let wasm_msg = CosmosMsg::WasmExecute { contract_addr: router, msg: swap_msg, funds };
            push_deep(
                &mut state.recipient_parameters,
                RecipientParameters {
                    recipient_address: address,
                    channel_id: duplicate_opt_string(channel_id),
                    denom_out,
                },
            );
            Ok(wasm_msg)
        },
        _ => Err(ContractError::WrongMantaswapMsg),
    }
}

/// The response of a swap: the router call, answered with reply `id` on
/// success, and the `action` attribute.
pub open spec fn swap_response(msg: CosmosMsgView, id: u64, action: Seq<char>) -> ResponseView {
    ResponseView {
        messages: seq![SubMsgView { id, msg, reply_on: ReplyOn::Success }],
        attributes: seq![("action"@, action)],
        events: Seq::empty(),
    }
}

/// `SwapIn`: the one coin sent is swapped through the router and its proceeds
/// queued for the vault.
pub open spec fn spec_try_swap_in(
    s: StateView,
    contract_address: Seq<char>,
    funds: Seq<CoinView>,
    vault_address: Seq<char>,
    msg: MantaswapMsgView,
    check: Result<(), StdErrorView>,
) -> (StateView, Result<ResponseView, ContractErrorView>) {
    match spec_one_coin(funds) {
        Err(e) => (s, Err(payment_failure(e))),
        Ok(coin) => match spec_get_wasm_msg(
            s,
            contract_address,
            vault_address,
            msg,
            seq![coin],
            None,
            check,
        ) {
            Err(e) => (s, Err(e)),
            Ok((s2, m)) => (s2, Ok(swap_response(m, SWAP_IN_REPLY, "try_swap_in"@))),
        },
    }
}

/// Swaps the coin sent into native Kuji for the vault. `check` is the chain's
/// answer on `address_to_validate(chain, vault_address)`.
pub fn try_swap_in(
    state: &mut State,
    contract_address: &str,
    funds: &Vec<Coin>,
    vault_address: &str,
    mantaswap_msg: &MantaswapMsg,
    check: &Result<(), StdError>,
) -> (res: Result<Response, ContractError>)
    ensures
        ({
            let (s2, r) = spec_try_swap_in(
                old(state).deep_view(),
                contract_address@,
                funds.deep_view(),
                vault_address@,
                mantaswap_msg.deep_view(),
                result_view(check),
            );
            final(state).deep_view() == s2 && result_view(&res) == r
        }),
{
    let coin = match one_coin(funds) {
        Ok(c) => c,
        Err(e) => return Err(ContractError::CustomError { val: e.message() }),
    };
    let ghost cv = coin.deep_view();
    let mut fs: Vec<Coin> = Vec::new();
    fs.push(coin);
    assert(fs.deep_view() =~= seq![cv]);
    let wasm_msg = match get_wasm_msg(
        state,
        contract_address,
        vault_address,
        mantaswap_msg,
        fs,
        &None,
        check,
    ) {
        Ok(m) => m,
        Err(e) => return Err(e),
    };
    let mut response = Response::new();
    response.add_submessage_on_success(wasm_msg, SWAP_IN_REPLY);
    response.add_attribute("action", "try_swap_in");
    assert(response.deep_view().messages =~= swap_response(
        response.deep_view().messages[0].msg,
        SWAP_IN_REPLY,
        "try_swap_in"@,
    ).messages);
    assert(response.deep_view().attributes =~= seq![("action"@, "try_swap_in"@)]);
    assert(response.deep_view().events =~= Seq::<crate::response::EventView>::empty());
    Ok(response)
}

/// `SwapOut`: the native Kuji sent is swapped through the router and its
/// proceeds queued for the user.
pub open spec fn spec_try_swap_out(
    s: StateView,
    contract_address: Seq<char>,
    funds: Seq<CoinView>,
    user_address: Seq<char>,
    msg: MantaswapMsgView,
    channel_id: Option<Seq<char>>,
    check: Result<(), StdErrorView>,
) -> (StateView, Result<ResponseView, ContractErrorView>) {
    match spec_must_pay(funds, BASE_DENOM@) {
        Err(e) => (s, Err(payment_failure(e))),
        Ok(amount) => match spec_get_wasm_msg(
            s,
            contract_address,
            user_address,
            msg,
            seq![CoinView { denom: BASE_DENOM@, amount }],
            channel_id,
            check,
        ) {
            Err(e) => (s, Err(e)),
            Ok((s2, m)) => (s2, Ok(swap_response(m, SWAP_OUT_REPLY, "try_swap_out"@))),
        },
    }
}

/// Swaps the native Kuji sent into the token the user asked for. `check` is
/// the chain's answer on `address_to_validate(chain, user_address)`.
pub fn try_swap_out(
    state: &mut State,
    contract_address: &str,
    funds: &Vec<Coin>,
    user_address: &str,
    mantaswap_msg: &MantaswapMsg,
    channel_id: &Option<String>,
    check: &Result<(), StdError>,
) -> (res: Result<Response, ContractError>)
    ensures
        ({
            let (s2, r) = spec_try_swap_out(
                old(state).deep_view(),
                contract_address@,
                funds.deep_view(),
                user_address@,
                mantaswap_msg.deep_view(),
                channel_id.deep_view(),
                result_view(check),
            );
            final(state).deep_view() == s2 && result_view(&res) == r
        }),
{
    let amount = match must_pay(funds, BASE_DENOM) {
        Ok(a) => a,
        Err(e) => return Err(ContractError::CustomError { val: e.message() }),
    };
    let coin = Coin::new(amount, BASE_DENOM);
    let ghost cv = coin.deep_view();
    let mut fs: Vec<Coin> = Vec::new();
    fs.push(coin);
    assert(fs.deep_view() =~= seq![cv]);
    let wasm_msg = match get_wasm_msg(
        state,
        contract_address,
        user_address,
        mantaswap_msg,
        fs,
        channel_id,
        check,
    ) {
        Ok(m) => m,
        Err(e) => return Err(e),
    };
    let mut response = Response::new();
    response.add_submessage_on_success(wasm_msg, SWAP_OUT_REPLY);
    response.add_attribute("action", "try_swap_out");
    assert(response.deep_view().messages =~= swap_response(
        response.deep_view().messages[0].msg,
        SWAP_OUT_REPLY,
        "try_swap_out"@,
    ).messages);
    assert(response.deep_view().attributes =~= seq![("action"@, "try_swap_out"@)]);
    assert(response.deep_view().events =~= Seq::<crate::response::EventView>::empty());
    Ok(response)
}


/// A response that only carries attributes.
pub open spec fn attributes_response(attributes: Seq<(Seq<char>, Seq<char>)>) -> ResponseView {
    ResponseView { messages: Seq::empty(), attributes, events: Seq::empty() }
}

/// `UpdateConfig`: the admin, sending no funds, sets the timeout (given in
/// minutes) and the router. `check` is the chain's answer on the new router's
/// address, read only when a router is given.
pub open spec fn spec_try_update_config(
    s: StateView,
    sender: Seq<char>,
    funds: Seq<CoinView>,
    ibc_timeout_in_mins: Option<u8>,
    router_address: Option<Seq<char>>,
    check: Result<(), StdErrorView>,
) -> (StateView, Result<ResponseView, ContractErrorView>) {
    match spec_nonpayable(funds) {
        Err(e) => (s, Err(payment_failure(e))),
        Ok(_) => if sender != s.config.admin {
            (s, Err(ContractErrorView::Unauthorized))
        } else {
            let config1 = match ibc_timeout_in_mins {
                Some(x) => ConfigView { ibc_timeout: (x * 60) as u64, ..s.config },
                None => s.config,
            };
            let attrs1 = match ibc_timeout_in_mins {
                Some(x) => seq![
                    ("action"@, "try_update_config"@),
                    ("ibc_timeout"@, decimal_digits((x * 60) as nat)),
                ],
                None => seq![("action"@, "try_update_config"@)],
            };
            match router_address {
                None => (StateView { config: config1, ..s }, Ok(attributes_response(attrs1))),
                Some(r) => match check {
                    Err(e) => (s, Err(ContractErrorView::Std(e))),
                    Ok(_) => (
                        StateView { config: ConfigView { router: r, ..config1 }, ..s },
                        Ok(attributes_response(attrs1.push(("router"@, r)))),
                    ),
                },
            }
        },
    }
}

/// Updates the IBC timeout and the router; only the admin may, and without
/// sending funds. `check` is the chain's answer on `router_address`.
pub fn try_update_config(
    state: &mut State,
    sender: &str,
    funds: &Vec<Coin>,
    ibc_timeout_in_mins: Option<u8>,
    router_address: Option<String>,
    check: &Result<(), StdError>,
) -> (res: Result<Response, ContractError>)
    ensures
        ({
            let (s2, r) = spec_try_update_config(
                old(state).deep_view(),
                sender@,
                funds.deep_view(),
                ibc_timeout_in_mins,
                router_address.deep_view(),
                result_view(check),
            );
            final(state).deep_view() == s2 && result_view(&res) == r
        }),
{
    match nonpayable(funds) {
        Ok(_) => {},
        Err(e) => return Err(ContractError::CustomError { val: e.message() }),
    }
    if !str_eq(sender, state.config.admin.as_str()) {
        return Err(ContractError::Unauthorized);
    }
    let mut response = Response::new();
    response.add_attribute("action", "try_update_config");
    let mut timeout = state.config.ibc_timeout;
    if let Some(x) = ibc_timeout_in_mins {
        timeout = (x as u64) * 60;
        let text = u128_to_string(timeout as u128);
        response.add_attribute("ibc_timeout", text.as_str());
        assert(response.deep_view().attributes =~= seq![
            ("action"@, "try_update_config"@),
            ("ibc_timeout"@, decimal_digits((x * 60) as nat)),
        ]);
    } else {
        assert(response.deep_view().attributes =~= seq![("action"@, "try_update_config"@)]);
    }
    let ghost attrs1 = response.deep_view().attributes;
    let mut router = str_to_owned(state.config.router.as_str());
    if let Some(r) = router_address {
        match check {
            Err(e) => return Err(ContractError::Std(e.clone_error())),
            Ok(_) => {},
        }
        response.add_attribute("router", r.as_str());
        assert(response.deep_view().attributes =~= attrs1.push(("router"@, r@)));
        router = r;
    }
    state.config.ibc_timeout = timeout;
    state.config.router = router;
    assert(response.deep_view().messages =~= Seq::<SubMsgView>::empty());
    assert(response.deep_view().events =~= Seq::<crate::response::EventView>::empty());
    assert(final(state).deep_view().recipient_parameters == old(state).deep_view().recipient_parameters);
    Ok(response)
}

/// Creating the contract: the sender becomes admin, the router is the
/// validated `router_address`, the queue is empty. `check` is the chain's
/// answer on `router_address`.
pub open spec fn spec_try_instantiate(
    sender: Seq<char>,
    router_address: Seq<char>,
    chain_id: Seq<char>,
    check: Result<(), StdErrorView>,
) -> Result<(StateView, ResponseView), ContractErrorView> {
    match check {
        Err(e) => Err(ContractErrorView::Std(e)),
        Ok(_) => Ok(
            (
                StateView {
                    config: ConfigView {
                        admin: sender,
                        router: router_address,
                        ibc_timeout: 900,
                        chain_id,
                    },
                    recipient_parameters: Seq::empty(),
                },
                attributes_response(
                    seq![
                        ("action"@, "try_instantiate"@),
                        ("admin"@, sender),
                        ("router"@, router_address),
                    ],
                ),
            ),
        ),
    }
}

/// Creates the contract's state.
pub fn try_instantiate(
    sender: &str,
    msg: &InstantiateMsg,
    chain_id: &str,
    check: &Result<(), StdError>,
) -> (res: Result<(State, Response), ContractError>)
    ensures
        match spec_try_instantiate(sender@, msg.router_address@, chain_id@, result_view(check)) {
            Ok((s, r)) => res is Ok && res->Ok_0.0.deep_view() == s && res->Ok_0.1.deep_view() == r,
            Err(e) => res is Err && res->Err_0.deep_view() == e,
        },
{
    match check {
        Err(e) => return Err(ContractError::Std(e.clone_error())),
        Ok(_) => {},
    }
    let config = Config::new(sender, msg.router_address.as_str(), chain_id);
    let state = State { config, recipient_parameters: Vec::new() };
    let mut response = Response::new();
    response.add_attribute("action", "try_instantiate");
    response.add_attribute("admin", sender);
    response.add_attribute("router", msg.router_address.as_str());
    assert(state.deep_view().recipient_parameters =~= Seq::<RecipientView>::empty());
    assert(response.deep_view().attributes =~= seq![
        ("action"@, "try_instantiate"@),
        ("admin"@, sender@),
        ("router"@, msg.router_address@),
    ]);
    Ok((state, response))
}


/// The answer to a swap this contract asked the router for, of reply `id`:
/// the coin the contract received, as the answer's events report it, is sent
/// on to the recipient at the front of the queue, which leaves it, with a
/// `digest` attribute `{amount} {denom} {recipient}`. A swap in's proceeds go
/// by a transfer on this chain; a swap out's go over the recipient's channel
/// when it has one, timing out `ibc_timeout` seconds after the block time.
/// `balance` is the chain's answer to the query of the contract's balance in
/// the denomination received.
pub open spec fn spec_reply(
    s: StateView,
    id: u64,
    block_time_nanos: u64,
    result: Result<SubMsgResponseView, Seq<char>>,
    balance: Result<u128, StdErrorView>,
) -> (StateView, Result<ResponseView, ContractErrorView>) {
    if id != SWAP_IN_REPLY && id != SWAP_OUT_REPLY {
        (s, Err(ContractErrorView::UndefinedReplyId))
    } else {
        match spec_parse_recipient_amount_denom(result) {
            Err(e) => (s, Err(e)),
            Ok((_, amount, denom)) => match balance {
                Err(e) => (s, Err(ContractErrorView::Std(e))),
                Ok(b) => if b < amount {
                    (s, Err(ContractErrorView::BalanceIsNotEnough { symbol: denom }))
                } else if s.recipient_parameters.len() == 0 {
                    (s, Err(ContractErrorView::RecipientParametersAreNotFound))
                } else {
                    let front = s.recipient_parameters[0];
                    let msg = if id == SWAP_OUT_REPLY && front.channel_id is Some {
                        CosmosMsgView::IbcTransfer {
                            channel_id: front.channel_id->0,
                            to_address: front.recipient_address,
                            amount: CoinView { denom, amount },
                            timeout_nanos: (block_time_nanos + s.config.ibc_timeout
                                * 1_000_000_000) as u64,
                        }
                    } else {
                        CosmosMsgView::BankSend {
                            to_address: front.recipient_address,
                            amount: seq![CoinView { denom, amount }],
                        }
                    };
                    (
                        StateView { recipient_parameters: s.recipient_parameters.drop_first(), ..s },
                        Ok(transfer_response(msg, digest_text(amount, denom, front.recipient_address))),
                    )
                },
            },
        }
    }
}

/// The answer of a swap out that goes over IBC gives a timeout in the range
/// of block times.
pub open spec fn reply_time_ok(
    s: StateView,
    id: u64,
    block_time_nanos: u64,
    result: Result<SubMsgResponseView, Seq<char>>,
    balance: Result<u128, StdErrorView>,
) -> bool {
    (spec_reply(s, id, block_time_nanos, result, balance).1 is Ok && id == SWAP_OUT_REPLY
        && s.recipient_parameters[0].channel_id is Some) ==> block_time_nanos + s.config.ibc_timeout
        * 1_000_000_000 <= u64::MAX
}

/// Whether `reply` may be called: the IBC timeout it would compute stays in
/// the range of block times. The test its caller makes first.
pub fn reply_time_holds(
    state: &State,
    id: u64,
    block_time_nanos: u64,
    result: &Result<SubMsgResponse, String>,
    balance: &Result<u128, StdError>,
) -> (res: bool)
    requires
        id == SWAP_IN_REPLY || id == SWAP_OUT_REPLY ==> parse_defined(result_view(result)),
    ensures
        res == reply_time_ok(
            state.deep_view(),
            id,
            block_time_nanos,
            result_view(result),
            result_view(balance),
        ),
{
    if id != SWAP_OUT_REPLY {
        return true;
    }
    let (_recipient, amount, _denom) = match parse_recipient_amount_denom(result) {
        Ok(x) => x,
        Err(_) => return true,
    };
    let bal = match balance {
        Ok(b) => *b,
        Err(_) => return true,
    };
    if bal < amount || state.recipient_parameters.len() == 0 {
        return true;
    }
    if state.recipient_parameters[0].channel_id.is_none() {
        return true;
    }
    match state.config.ibc_timeout.checked_mul(1_000_000_000) {
        None => false,
        Some(t) => block_time_nanos.checked_add(t).is_some(),
    }
}

/// Answers the reply `id` to a swap: sends what the swap brought in on to the
/// recipient at the front of the queue.
pub fn reply(
    state: &mut State,
    id: u64,
    block_time_nanos: u64,
    result: &Result<SubMsgResponse, String>,
    balance: &Result<u128, StdError>,
) -> (res: Result<Response, ContractError>)
    requires
        id == SWAP_IN_REPLY || id == SWAP_OUT_REPLY ==> parse_defined(result_view(result)),
        reply_time_ok(
            old(state).deep_view(),
            id,
            block_time_nanos,
            result_view(result),
            result_view(balance),
        ),
    ensures
        ({
            let (s2, r) = spec_reply(
                old(state).deep_view(),
                id,
                block_time_nanos,
                result_view(result),
                result_view(balance),
            );
            final(state).deep_view() == s2 && result_view(&res) == r
        }),
{
    if id != SWAP_IN_REPLY && id != SWAP_OUT_REPLY {
        return Err(ContractError::UndefinedReplyId);
    }
    let (_recipient, amount, denom) = match parse_recipient_amount_denom(result) {
        Ok(x) => x,
        Err(e) => return Err(e),
    };
    let bal = match balance {
        Ok(b) => *b,
        Err(e) => return Err(ContractError::Std(e.clone_error())),
    };
    if bal < amount {
        return Err(ContractError::BalanceIsNotEnough { symbol: denom });
    }
    if state.recipient_parameters.len() == 0 {
        return Err(ContractError::RecipientParametersAreNotFound);
    }
    let ghost prev = state.recipient_parameters.deep_view();
    let front = state.recipient_parameters.remove(0);
    assert(state.recipient_parameters.deep_view() =~= prev.drop_first());
    let timeout = state.config.ibc_timeout;
    let d = digest(amount, denom.as_str(), front.recipient_address.as_str());
    let coin = Coin { denom, amount };
    let msg = match front.channel_id {
        Some(c) if id == SWAP_OUT_REPLY => {
            let t = timestamp_plus_seconds(block_time_nanos, timeout);
            CosmosMsg::IbcTransfer {
                channel_id: c,
                to_address: str_to_owned(front.recipient_address.as_str()),
                amount: coin,
                timeout_nanos: t,
            }
        },
        _ => {
            let ghost cv = coin.deep_view();
            let mut coins: Vec<Coin> = Vec::new();
            coins.push(coin);
            assert(coins.deep_view() =~= seq![cv]);
            CosmosMsg::BankSend {
                to_address: str_to_owned(front.recipient_address.as_str()),
                amount: coins,
            }
        },
    };
    let mut response = Response::new();
    response.add_message(msg);
    response.add_attribute("digest", d.as_str());
    assert(response.deep_view().messages =~= transfer_response(
        response.deep_view().messages[0].msg,
        d@,
    ).messages);
    assert(response.deep_view().attributes =~= seq![("digest"@, d@)]);
    assert(response.deep_view().events =~= Seq::<crate::response::EventView>::empty());
    Ok(response)
}

/// A configuration update keeps the IBC timeout a whole number of minutes
/// that fits in a byte.
pub proof fn law_update_config_keeps_timeout_whole_minutes(
    s: StateView,
    sender: Seq<char>,
    funds: Seq<CoinView>,
    ibc_timeout_in_mins: Option<u8>,
    router_address: Option<Seq<char>>,
    check: Result<(), StdErrorView>,
)
    requires
        timeout_ok(s.config.ibc_timeout),
    ensures
        timeout_ok(
            spec_try_update_config(
                s,
                sender,
                funds,
                ibc_timeout_in_mins,
                router_address,
                check,
            ).0.config.ibc_timeout,
        ),
{
}

/// An update by the admin, sending no funds, with a valid router if one is
/// given, succeeds: the timeout becomes the minutes given times sixty, the
/// router the address given, and the rest stays as it was.
pub proof fn law_admin_update_takes_effect(
    s: StateView,
    funds: Seq<CoinView>,
    ibc_timeout_in_mins: Option<u8>,
    router_address: Option<Seq<char>>,
    check: Result<(), StdErrorView>,
)
    requires
        funds.len() == 0,
        router_address is Some ==> check is Ok,
    ensures
        ({
            let (s2, r) = spec_try_update_config(
                s,
                s.config.admin,
                funds,
                ibc_timeout_in_mins,
                router_address,
                check,
            );
            &&& r is Ok
            &&& s2.config.ibc_timeout == match ibc_timeout_in_mins {
                Some(x) => x * 60,
                None => s.config.ibc_timeout as int,
            }
            &&& s2.config.router == match router_address {
                Some(a) => a,
                None => s.config.router,
            }
            &&& s2.config.admin == s.config.admin
            &&& s2.config.chain_id == s.config.chain_id
            &&& s2.recipient_parameters == s.recipient_parameters
        }),
{
}

/// Only the admin can change the configuration: any other sender is refused
/// and nothing changes.
pub proof fn law_only_admin_updates_config(
    s: StateView,
    sender: Seq<char>,
    funds: Seq<CoinView>,
    ibc_timeout_in_mins: Option<u8>,
    router_address: Option<Seq<char>>,
    check: Result<(), StdErrorView>,
)
    requires
        sender != s.config.admin,
    ensures
        ({
            let (s2, r) = spec_try_update_config(
                s,
                sender,
                funds,
                ibc_timeout_in_mins,
                router_address,
                check,
            );
            s2 == s && r is Err
        }),
{
}

/// Funds sent with a configuration update are refused and nothing changes.
pub proof fn law_update_config_refuses_funds(
    s: StateView,
    sender: Seq<char>,
    funds: Seq<CoinView>,
    ibc_timeout_in_mins: Option<u8>,
    router_address: Option<Seq<char>>,
    check: Result<(), StdErrorView>,
)
    requires
        funds.len() > 0,
    ensures
        ({
            let (s2, r) = spec_try_update_config(
                s,
                sender,
                funds,
                ibc_timeout_in_mins,
                router_address,
                check,
            );
            s2 == s && r == Err::<ResponseView, ContractErrorView>(
                ContractErrorView::CustomError { val: "This message does no accept funds"@ },
            )
        }),
{
}

/// No operation changes the admin or the chain identifier.
pub proof fn law_admin_and_chain_never_change(
    s: StateView,
    contract_address: Seq<char>,
    sender: Seq<char>,
    funds: Seq<CoinView>,
    address: Seq<char>,
    msg: MantaswapMsgView,
    channel_id: Option<Seq<char>>,
    ibc_timeout_in_mins: Option<u8>,
    router_address: Option<Seq<char>>,
    check: Result<(), StdErrorView>,
)
    ensures
        spec_try_swap_in(s, contract_address, funds, address, msg, check).0.config.admin
            == s.config.admin,
        spec_try_swap_in(s, contract_address, funds, address, msg, check).0.config.chain_id
            == s.config.chain_id,
        spec_try_swap_out(s, contract_address, funds, address, msg, channel_id, check).0.config
            == s.config,
        spec_try_update_config(
            s,
            sender,
            funds,
            ibc_timeout_in_mins,
            router_address,
            check,
        ).0.config.admin == s.config.admin,
        spec_try_update_config(
            s,
            sender,
            funds,
            ibc_timeout_in_mins,
            router_address,
            check,
        ).0.config.chain_id == s.config.chain_id,
{
}

/// A swap out either fails and changes nothing, or queues exactly one
/// recipient, the user, at the back of the queue and asks the router for a
/// swap whose proceeds come back to this contract, paid with the native Kuji sent.
pub proof fn law_swap_out_queues_user(
    s: StateView,
    contract_address: Seq<char>,
    funds: Seq<CoinView>,
    user_address: Seq<char>,
    msg: MantaswapMsgView,
    channel_id: Option<Seq<char>>,
    check: Result<(), StdErrorView>,
)
    ensures
        ({
            let (s2, r) = spec_try_swap_out(
                s,
                contract_address,
                funds,
                user_address,
                msg,
                channel_id,
                check,
            );
            &&& r is Err ==> s2 == s
            &&& r is Ok ==> {
                &&& s2.config == s.config
                &&& s2.recipient_parameters.len() == s.recipient_parameters.len() + 1
                &&& s2.recipient_parameters.drop_last() == s.recipient_parameters
                &&& s2.recipient_parameters.last().recipient_address == user_address
                &&& s2.recipient_parameters.last().channel_id == channel_id
                &&& funds.len() == 1 && funds[0].denom == BASE_DENOM@ && funds[0].amount > 0
                &&& r->Ok_0.messages.len() == 1
                &&& r->Ok_0.messages[0].reply_on == ReplyOn::Success
                &&& r->Ok_0.messages[0].id == SWAP_OUT_REPLY
                &&& r->Ok_0.messages[0].msg matches CosmosMsgView::WasmExecute {
                    contract_addr,
                    msg: MantaswapMsgView::Swap { recipient, .. },
                    funds: sent,
                } && contract_addr == s.config.router && recipient == Some(contract_address)
                    && sent == funds
            }
        }),
{
    let (s2, r) = spec_try_swap_out(s, contract_address, funds, user_address, msg, channel_id, check);
    if r is Ok {
        assert(s2.recipient_parameters.drop_last() =~= s.recipient_parameters);
        assert(seq![CoinView { denom: BASE_DENOM@, amount: funds[0].amount }] =~= funds);
    }
}

/// A swap out succeeds whenever one coin of native Kuji is sent, the swap
/// message asks for a minimum return, the chain accepts the recipient's
/// address, and an IBC transfer, if asked for, is of an IBC token to an
/// address outside Kujira: the user is queued with the channel and the
/// denomination asked for. Plain addresses such as `alice` qualify on any
/// chain whose address check accepts them.
pub proof fn law_swap_out_succeeds(
    s: StateView,
    contract_address: Seq<char>,
    amount: u128,
    user_address: Seq<char>,
    stages: Seq<Seq<(Seq<char>, Seq<char>)>>,
    recipient: Option<Seq<char>>,
    coins: Seq<CoinView>,
    channel_id: Option<Seq<char>>,
)
    requires
        amount > 0,
        coins.len() > 0,
        channel_id is Some ==> contains_seq(coins[0].denom, "ibc/"@) && before_char(
            user_address,
            '1',
        ) != BASE_PREFIX@,
    ensures
        ({
            let msg = MantaswapMsgView::Swap { stages, recipient, min_return: Some(coins) };
            let funds = seq![CoinView { denom: BASE_DENOM@, amount }];
            let (s2, r) = spec_try_swap_out(
                s,
                contract_address,
                funds,
                user_address,
                msg,
                channel_id,
                Ok(()),
            );
            &&& r is Ok
            &&& s2.recipient_parameters == s.recipient_parameters.push(
                RecipientView { recipient_address: user_address, channel_id, denom_out: coins[0].denom },
            )
        }),
{
}

/// A swap in succeeds whenever exactly one coin of non-zero amount is sent,
/// the swap message asks for a minimum return, and the chain accepts the
/// vault's address: the vault is queued for the denomination asked for.
pub proof fn law_swap_in_succeeds(
    s: StateView,
    contract_address: Seq<char>,
    coin: CoinView,
    vault_address: Seq<char>,
    stages: Seq<Seq<(Seq<char>, Seq<char>)>>,
    recipient: Option<Seq<char>>,
    coins: Seq<CoinView>,
)
    requires
        coin.amount > 0,
        coins.len() > 0,
    ensures
        ({
            let msg = MantaswapMsgView::Swap { stages, recipient, min_return: Some(coins) };
            let (s2, r) = spec_try_swap_in(
                s,
                contract_address,
                seq![coin],
                vault_address,
                msg,
                Ok(()),
            );
            &&& r is Ok
            &&& s2.recipient_parameters == s.recipient_parameters.push(
                RecipientView { recipient_address: vault_address, channel_id: None, denom_out: coins[0].denom },
            )
        }),
{
}

/// A swap in either fails and changes nothing, or queues exactly one
/// recipient, the vault, for a transfer on this chain.
pub proof fn law_swap_in_queues_vault(
    s: StateView,
    contract_address: Seq<char>,
    funds: Seq<CoinView>,
    vault_address: Seq<char>,
    msg: MantaswapMsgView,
    check: Result<(), StdErrorView>,
)
    ensures
        ({
            let (s2, r) = spec_try_swap_in(s, contract_address, funds, vault_address, msg, check);
            &&& r is Err ==> s2 == s
            &&& r is Ok ==> {
                &&& s2.config == s.config
                &&& s2.recipient_parameters.drop_last() == s.recipient_parameters
                &&& s2.recipient_parameters.len() == s.recipient_parameters.len() + 1
                &&& s2.recipient_parameters.last().recipient_address == vault_address
                &&& s2.recipient_parameters.last().channel_id is None
                &&& funds.len() == 1 && funds[0].amount > 0
            }
        }),
{
    let (s2, r) = spec_try_swap_in(s, contract_address, funds, vault_address, msg, check);
    if r is Ok {
        assert(s2.recipient_parameters.drop_last() =~= s.recipient_parameters);
    }
}

/// An IBC transfer is only queued for an IBC token and for a recipient whose
/// address is not a Kujira one.
pub proof fn law_ibc_only_for_ibc_tokens(
    s: StateView,
    contract_address: Seq<char>,
    funds: Seq<CoinView>,
    user_address: Seq<char>,
    msg: MantaswapMsgView,
    channel_id: Option<Seq<char>>,
    check: Result<(), StdErrorView>,
)
    requires
        channel_id is Some,
        spec_try_swap_out(s, contract_address, funds, user_address, msg, channel_id, check).1 is Ok,
    ensures
        ({
            let s2 = spec_try_swap_out(
                s,
                contract_address,
                funds,
                user_address,
                msg,
                channel_id,
                check,
            ).0;
            &&& contains_seq(s2.recipient_parameters.last().denom_out, "ibc/"@)
            &&& before_char(user_address, '1') != BASE_PREFIX@
        }),
{
}

/// One call of the contract that may change its queue, with the chain's
/// answers it gets, as the laws on sequences of calls see it.
pub enum Call {
    SwapIn {
        contract_address: Seq<char>,
        funds: Seq<CoinView>,
        vault_address: Seq<char>,
        msg: MantaswapMsgView,
        check: Result<(), StdErrorView>,
    },
    SwapOut {
        contract_address: Seq<char>,
        funds: Seq<CoinView>,
        user_address: Seq<char>,
        msg: MantaswapMsgView,
        channel_id: Option<Seq<char>>,
        check: Result<(), StdErrorView>,
    },
    UpdateConfig {
        sender: Seq<char>,
        funds: Seq<CoinView>,
        ibc_timeout_in_mins: Option<u8>,
        router_address: Option<Seq<char>>,
        check: Result<(), StdErrorView>,
    },
    Reply {
        id: u64,
        block_time_nanos: u64,
        result: Result<SubMsgResponseView, Seq<char>>,
        balance: Result<u128, StdErrorView>,
    },
}

/// The state and the result of one call.
pub open spec fn call_outcome(s: StateView, c: Call) -> (StateView, Result<ResponseView, ContractErrorView>) {
    match c {
        Call::SwapIn { contract_address, funds, vault_address, msg, check } => spec_try_swap_in(
            s,
            contract_address,
            funds,
            vault_address,
            msg,
            check,
        ),
        Call::SwapOut { contract_address, funds, user_address, msg, channel_id, check } => {
            spec_try_swap_out(s, contract_address, funds, user_address, msg, channel_id, check)
        },
        Call::UpdateConfig { sender, funds, ibc_timeout_in_mins, router_address, check } => {
            spec_try_update_config(s, sender, funds, ibc_timeout_in_mins, router_address, check)
        },
        Call::Reply { id, block_time_nanos, result, balance } => spec_reply(
            s,
            id,
            block_time_nanos,
            result,
            balance,
        ),
    }
}

/// The denomination of the minimum return a swap message asks for.
pub open spec fn asked_denom(msg: MantaswapMsgView) -> Seq<char> {
    match msg {
        MantaswapMsgView::Swap { min_return: Some(coins), .. } => coins[0].denom,
        _ => Seq::empty(),
    }
}

/// The recipient that a call asks to be paid: for a successful swap, the
/// vault or the user, with the channel and the denomination asked for.
pub open spec fn queued(s: StateView, c: Call) -> Seq<RecipientView> {
    if call_outcome(s, c).1 is Err {
        Seq::empty()
    } else {
        match c {
            Call::SwapIn { vault_address, msg, .. } => seq![
                RecipientView {
                    recipient_address: vault_address,
                    channel_id: None,
                    denom_out: asked_denom(msg),
                },
            ],
            Call::SwapOut { user_address, msg, channel_id, .. } => seq![
                RecipientView { recipient_address: user_address, channel_id, denom_out: asked_denom(msg) },
            ],
            _ => Seq::empty(),
        }
    }
}

/// The state after a sequence of calls.
pub open spec fn run(s: StateView, calls: Seq<Call>) -> StateView
    decreases calls.len(),
{
    if calls.len() == 0 {
        s
    } else {
        run(call_outcome(s, calls[0]).0, calls.drop_first())
    }
}

/// The recipients that a sequence of calls asks to be paid, in order.
pub open spec fn queued_by(s: StateView, calls: Seq<Call>) -> Seq<RecipientView>
    decreases calls.len(),
{
    if calls.len() == 0 {
        Seq::empty()
    } else {
        queued(s, calls[0]) + queued_by(call_outcome(s, calls[0]).0, calls.drop_first())
    }
}

/// Over any sequence of swaps and updates, the queue grows at its back only,
/// by the recipients of the successful swaps in the order they were made;
/// what was queued before stays, in order, at the front. The configuration's
/// admin and chain never change.
pub proof fn law_swaps_queue_in_order(s: StateView, calls: Seq<Call>)
    requires
        forall|i: int| 0 <= i < calls.len() ==> !(#[trigger] calls[i] is Reply),
    ensures
        run(s, calls).recipient_parameters == s.recipient_parameters + queued_by(s, calls),
        run(s, calls).config.admin == s.config.admin,
        run(s, calls).config.chain_id == s.config.chain_id,
    decreases calls.len(),
{
    if calls.len() == 0 {
        assert(s.recipient_parameters + Seq::<RecipientView>::empty() =~= s.recipient_parameters);
    } else {
        let c = calls[0];
        let s1 = call_outcome(s, c).0;
        let rest = calls.drop_first();
        assert forall|i: int| 0 <= i < rest.len() implies !(#[trigger] rest[i] is Reply) by {
            assert(rest[i] == calls[i + 1]);
        }
        assert(!(calls[0] is Reply));
        law_swaps_queue_in_order(s1, rest);
        if call_outcome(s, c).1 is Err {
            assert(s1 == s);
            assert(queued(s, c) =~= Seq::<RecipientView>::empty());
        } else {
            match c {
                Call::UpdateConfig { .. } => {
                    assert(s1.recipient_parameters == s.recipient_parameters);
                },
                _ => {
                    assert(s1.recipient_parameters =~= s.recipient_parameters + queued(s, c));
                },
            }
        }
        assert(s.recipient_parameters + queued_by(s, calls) =~= (s.recipient_parameters + queued(
            s,
            c,
        )) + queued_by(s1, rest));
    }
}

/// The addresses of the recipients of a queue, in order.
pub open spec fn addresses(q: Seq<RecipientView>) -> Seq<Seq<char>> {
    q.map_values(|r: RecipientView| r.recipient_address)
}

/// Who a transfer message pays.
pub open spec fn payee_address(msg: CosmosMsgView) -> Seq<char> {
    match msg {
        CosmosMsgView::BankSend { to_address, .. } => to_address,
        CosmosMsgView::IbcTransfer { to_address, .. } => to_address,
        _ => Seq::empty(),
    }
}

/// The address that a call pays: for a successful reply, the one its
/// transfer message pays.
pub open spec fn paid(s: StateView, c: Call) -> Seq<Seq<char>> {
    match c {
        Call::Reply { .. } => match call_outcome(s, c).1 {
            Ok(r) => seq![payee_address(r.messages[0].msg)],
            Err(_) => Seq::empty(),
        },
        _ => Seq::empty(),
    }
}

/// The addresses that a sequence of calls pays, in order.
pub open spec fn paid_by(s: StateView, calls: Seq<Call>) -> Seq<Seq<char>>
    decreases calls.len(),
{
    if calls.len() == 0 {
        Seq::empty()
    } else {
        paid(s, calls[0]) + paid_by(call_outcome(s, calls[0]).0, calls.drop_first())
    }
}

proof fn lemma_call_keeps_order(s: StateView, c: Call)
    ensures
        addresses(s.recipient_parameters) + addresses(queued(s, c)) == paid(s, c) + addresses(
            call_outcome(s, c).0.recipient_parameters,
        ),
{
    let (s2, r) = call_outcome(s, c);
    let q = s.recipient_parameters;
    if r is Err {
        assert(addresses(queued(s, c)) =~= Seq::<Seq<char>>::empty());
        assert(addresses(q) + Seq::<Seq<char>>::empty() =~= addresses(q));
        assert(Seq::<Seq<char>>::empty() + addresses(q) =~= addresses(q));
    } else {
        match c {
            Call::Reply { .. } => {
                assert(addresses(queued(s, c)) =~= Seq::<Seq<char>>::empty());
                assert(addresses(s2.recipient_parameters) =~= addresses(q).drop_first());
                assert(addresses(q) =~= seq![addresses(q)[0]] + addresses(q).drop_first());
                assert(addresses(q) + Seq::<Seq<char>>::empty() =~= addresses(q));
            },
            Call::UpdateConfig { .. } => {
                assert(addresses(queued(s, c)) =~= Seq::<Seq<char>>::empty());
                assert(addresses(q) + Seq::<Seq<char>>::empty() =~= addresses(q));
                assert(Seq::<Seq<char>>::empty() + addresses(q) =~= addresses(q));
            },
            _ => {
                assert(s2.recipient_parameters =~= q + queued(s, c));
                assert(addresses(q + queued(s, c)) =~= addresses(q) + addresses(queued(s, c)));
                assert(Seq::<Seq<char>>::empty() + addresses(s2.recipient_parameters) =~= addresses(
                    s2.recipient_parameters,
                ));
            },
        }
    }
}

/// Pending recipients are paid first in, first out over any sequence of
/// swaps, replies and updates, interleaved as they may be: the addresses
/// queued at the start followed by those of every recipient the successful
/// swaps asked for are the addresses the successful replies paid, in the
/// order they were paid, followed by those still queued at the end. From an
/// empty queue the k-th successful reply pays the recipient of the k-th
/// successful swap.
pub proof fn law_queue_first_in_first_out(s: StateView, calls: Seq<Call>)
    ensures
        addresses(s.recipient_parameters) + addresses(queued_by(s, calls)) == paid_by(s, calls)
            + addresses(run(s, calls).recipient_parameters),
    decreases calls.len(),
{
    if calls.len() == 0 {
        assert(addresses(queued_by(s, calls)) =~= Seq::<Seq<char>>::empty());
        assert(addresses(s.recipient_parameters) + Seq::<Seq<char>>::empty() =~= addresses(
            s.recipient_parameters,
        ));
        assert(Seq::<Seq<char>>::empty() + addresses(s.recipient_parameters) =~= addresses(
            s.recipient_parameters,
        ));
    } else {
        let c = calls[0];
        let s1 = call_outcome(s, c).0;
        let rest = calls.drop_first();
        lemma_call_keeps_order(s, c);
        law_queue_first_in_first_out(s1, rest);
        assert(addresses(queued_by(s, calls)) =~= addresses(queued(s, c)) + addresses(
            queued_by(s1, rest),
        ));
        assert(addresses(s.recipient_parameters) + addresses(queued_by(s, calls)) =~= (addresses(
            s.recipient_parameters,
        ) + addresses(queued(s, c))) + addresses(queued_by(s1, rest)));
        assert(paid_by(s, calls) + addresses(run(s, calls).recipient_parameters) =~= paid(s, c) + (
        paid_by(s1, rest) + addresses(run(s1, rest).recipient_parameters)));
    }
}

/// The answer to a swap pays the recipient at the front of the queue, never
/// more than the contract holds, and removes it from the queue: over IBC
/// exactly when it answers a swap out whose recipient has a channel, and then
/// over that channel; a failed answer changes nothing.
pub proof fn law_reply_serves_front(
    s: StateView,
    id: u64,
    block_time_nanos: u64,
    result: Result<SubMsgResponseView, Seq<char>>,
    balance: Result<u128, StdErrorView>,
)
    ensures
        ({
            let (s2, r) = spec_reply(s, id, block_time_nanos, result, balance);
            &&& r is Err ==> s2 == s
            &&& r is Ok ==> {
                &&& s.recipient_parameters.len() > 0
                &&& s2.recipient_parameters == s.recipient_parameters.drop_first()
                &&& s2.config == s.config
                &&& balance matches Ok(b) && r->Ok_0.messages.len() == 1 && match r->Ok_0.messages[0].msg {
                    CosmosMsgView::BankSend { to_address, amount } => {
                        &&& !(id == SWAP_OUT_REPLY && s.recipient_parameters[0].channel_id is Some)
                        &&& to_address == s.recipient_parameters[0].recipient_address
                        &&& amount.len() == 1 && amount[0].amount <= b
                    },
                    CosmosMsgView::IbcTransfer { channel_id, to_address, amount, .. } => {
                        &&& id == SWAP_OUT_REPLY
                        &&& s.recipient_parameters[0].channel_id == Some(channel_id)
                        &&& to_address == s.recipient_parameters[0].recipient_address
                        &&& amount.amount <= b
                    },
                    _ => false,
                }
            }
        }),
{
}

/// The answer to a swap pays out exactly the coin the contract received, as
/// the answer's first `coin_received` event reports it in its last attribute
/// but one (`{amount}{denom}`), whatever else the contract holds: the balance
/// only decides whether it may be paid, and must cover it.
pub proof fn law_reply_pays_coin_received(
    s: StateView,
    id: u64,
    block_time_nanos: u64,
    result: Result<SubMsgResponseView, Seq<char>>,
    balance: Result<u128, StdErrorView>,
)
    requires
        spec_reply(s, id, block_time_nanos, result, balance).1 is Ok,
    ensures
        ({
            let r = spec_reply(s, id, block_time_nanos, result, balance).1->Ok_0;
            let events = result->Ok_0.events;
            let attrs = events[first_event(events, "coin_received"@)->0].attributes;
            let coin = spec_coin_from_str(attrs[attrs.len() - 2].1)->Ok_0;
            &&& result is Ok
            &&& first_event(events, "coin_received"@) is Some
            &&& spec_coin_from_str(attrs[attrs.len() - 2].1) is Ok
            &&& r.messages.len() == 1
            &&& match r.messages[0].msg {
                CosmosMsgView::BankSend { amount, .. } => amount == seq![coin],
                CosmosMsgView::IbcTransfer { amount, .. } => amount == coin,
                _ => false,
            }
            &&& balance matches Ok(b) && coin.amount <= b
        }),
{
}

/// Two answers to the same swap that differ only in the contract's balance,
/// and both succeed, pay the same: the balance gates the reply and never sets
/// what it pays.
pub proof fn law_reply_independent_of_balance(
    s: StateView,
    id: u64,
    block_time_nanos: u64,
    result: Result<SubMsgResponseView, Seq<char>>,
    b1: u128,
    b2: u128,
)
    requires
        spec_reply(s, id, block_time_nanos, result, Ok(b1)).1 is Ok,
        spec_reply(s, id, block_time_nanos, result, Ok(b2)).1 is Ok,
    ensures
        spec_reply(s, id, block_time_nanos, result, Ok(b1)) == spec_reply(
            s,
            id,
            block_time_nanos,
            result,
            Ok(b2),
        ),
{
}

/// A successful swap, in or out, asks the router for exactly the route and
/// the minimum return of the user's swap message, with the proceeds coming
/// back to this contract, and pays the router with the funds sent.
pub proof fn law_swap_forwards_route(
    s: StateView,
    contract_address: Seq<char>,
    funds: Seq<CoinView>,
    address: Seq<char>,
    msg: MantaswapMsgView,
    channel_id: Option<Seq<char>>,
    check: Result<(), StdErrorView>,
)
    ensures
        ({
            let r = spec_try_swap_in(s, contract_address, funds, address, msg, check).1;
            r is Ok ==> forwards(r->Ok_0, s.config.router, contract_address, msg, funds)
        }),
        ({
            let r = spec_try_swap_out(s, contract_address, funds, address, msg, channel_id, check).1;
            r is Ok ==> forwards(r->Ok_0, s.config.router, contract_address, msg, funds)
        }),
{
    let r = spec_try_swap_in(s, contract_address, funds, address, msg, check).1;
    if r is Ok {
        assert(seq![funds[0]] =~= funds);
    }
    let r2 = spec_try_swap_out(s, contract_address, funds, address, msg, channel_id, check).1;
    if r2 is Ok {
        assert(seq![CoinView { denom: BASE_DENOM@, amount: funds[0].amount }] =~= funds);
    }
}

/// The response is one call of `router`, answered on success, carrying the
/// swap message `msg` with its stages and minimum return unchanged and the
/// recipient set to `contract_address`, paid with `funds`.
pub open spec fn forwards(
    r: ResponseView,
    router: Seq<char>,
    contract_address: Seq<char>,
    msg: MantaswapMsgView,
    funds: Seq<CoinView>,
) -> bool {
    &&& r.messages.len() == 1
    &&& r.messages[0].reply_on == ReplyOn::Success
    &&& msg matches MantaswapMsgView::Swap { stages, min_return, .. }
    &&& r.messages[0].msg == CosmosMsgView::WasmExecute {
        contract_addr: router,
        msg: MantaswapMsgView::Swap { stages, recipient: Some(contract_address), min_return },
        funds,
    }
}

/// An IBC transfer of a reply times out the configured number of seconds
/// after the block time of the reply.
pub proof fn law_reply_ibc_timeout(
    s: StateView,
    id: u64,
    block_time_nanos: u64,
    result: Result<SubMsgResponseView, Seq<char>>,
    balance: Result<u128, StdErrorView>,
)
    requires
        reply_time_ok(s, id, block_time_nanos, result, balance),
    ensures
        spec_reply(s, id, block_time_nanos, result, balance).1 is Ok ==> (spec_reply(s, id, block_time_nanos, result, balance).1->Ok_0.messages[0].msg matches CosmosMsgView::IbcTransfer {
            timeout_nanos,
            ..
        } ==> timeout_nanos == block_time_nanos + s.config.ibc_timeout * 1_000_000_000),
{
}

} // verus!
