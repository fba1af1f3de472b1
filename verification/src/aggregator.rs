//! The generic aggregator: a contract with the configuration rules of the
//! family, stub swap entry points, and the transfer of a swap's proceeds as
//! read from the swap's events.
use vstd::prelude::*;

use crate::coin::{
    coin_from_str, coin_parse_error_text, must_pay, nonpayable, one_coin, spec_coin_from_str,
    spec_must_pay, spec_nonpayable, spec_one_coin, Coin, CoinView,
};
use crate::error::{ContractError, ContractErrorView, StdError, StdErrorView};
use crate::kujira::{attributes_response, payment_failure, timeout_ok};
use crate::response::{
    timestamp_plus_seconds, CosmosMsg, CosmosMsgView, EventView, ReplyOn, Response, ResponseView,
    SubMsgResponse, SubMsgResponseView, SubMsgView,
};
use crate::text::{decimal_digits, result_view, str_eq, str_to_owned, u128_to_string};
use crate::types::{RecipientParameters, RecipientView};

verus! {

/// Default IBC timeout, in minutes.
pub const TIMEOUT_IN_MINS: u8 = 15;

/// The native denomination the swaps out are paid in.
pub const DENOM_KUJI: &'static str = "ukuji";

/// The contract's configuration.
#[derive(Debug, Clone, PartialEq, Eq)]
pub struct Config {
    pub admin: String,
    pub router: String,
    /// IBC timeout in seconds.
    pub ibc_timeout: u64,
}

pub struct ConfigView {
    pub admin: Seq<char>,
    pub router: Seq<char>,
    pub ibc_timeout: u64,
}

impl DeepView for Config {
    type V = ConfigView;

    open spec fn deep_view(&self) -> ConfigView {
        ConfigView { admin: self.admin@, router: self.router@, ibc_timeout: self.ibc_timeout }
    }
}

impl Config {
    /// A configuration with the default timeout of 15 minutes.
    pub fn new(admin: &str, router: &str) -> (res: Config)
        ensures
            res.deep_view() == (ConfigView { admin: admin@, router: router@, ibc_timeout: 900 }),
    {
        Config {
            admin: str_to_owned(admin),
            router: str_to_owned(router),
            ibc_timeout: (TIMEOUT_IN_MINS as u64) * 60,
        }
    }
}

/// The contract's stored state: its configuration and the queue of pending recipients.
#[derive(Debug, Clone, PartialEq, Eq)]
pub struct State {
    pub config: Config,
    pub recipient_parameters: Vec<RecipientParameters>,
}

pub struct StateView {
    pub config: ConfigView,
    pub recipient_parameters: Seq<RecipientView>,
}

impl DeepView for State {
    type V = StateView;

    open spec fn deep_view(&self) -> StateView {
        StateView {
            config: self.config.deep_view(),
            recipient_parameters: self.recipient_parameters.deep_view(),
        }
    }
}

/// Message that creates the contract.
#[derive(Debug, Clone, PartialEq, Eq)]
pub struct InstantiateMsg {
    pub router_address: String,
}

/// Messages the contract executes.
#[derive(Debug, Clone, PartialEq, Eq)]
pub enum ExecuteMsg {
    /// Called by a user: swap a token into native Kuji and send it to the vault.
    SwapIn { vault_address: String },
    /// Called by the vault: swap native Kuji into `denom_out` (no swap when it
    /// is native Kuji) and send it to the user on Kujira or over `channel_id`.
    SwapOut { denom_out: String, user_address: String, channel_id: Option<String> },
    /// Called by the admin.
    UpdateConfig { ibc_timeout_in_mins: Option<u8>, router_address: Option<String> },
}

/// Queries the contract answers.
#[derive(Debug, Clone, PartialEq, Eq)]
pub enum QueryMsg {
    QueryConfig,
}

/// Message that migrates the contract: it has no value, so no migration is accepted.
pub type MigrateMsg = core::convert::Infallible;

/// Creating the contract: the sender becomes admin, the router is the validated
/// `router_address`, the queue is empty. `check` is the chain's answer on it.
pub open spec fn spec_instantiate(
    sender: Seq<char>,
    router_address: Seq<char>,
    check: Result<(), StdErrorView>,
) -> Result<(StateView, ResponseView), ContractErrorView> {
    match check {
        Err(e) => Err(ContractErrorView::Std(e)),
        Ok(_) => Ok(
            (
                StateView {
                    config: ConfigView { admin: sender, router: router_address, ibc_timeout: 900 },
                    recipient_parameters: Seq::empty(),
                },
                attributes_response(
                    seq![
                        ("action"@, "try_instantiate"@),
                        ("admin"@, sender),
                        ("router"@, router_address),
                    ],
                ),
            ),
        ),
    }
}

/// Creates the contract's state.
pub fn instantiate(sender: &str, msg: &InstantiateMsg, check: &Result<(), StdError>) -> (res:
    Result<(State, Response), ContractError>)
    ensures
        match spec_instantiate(sender@, msg.router_address@, result_view(check)) {
            Ok((s, r)) => res is Ok && res->Ok_0.0.deep_view() == s && res->Ok_0.1.deep_view() == r,
            Err(e) => res is Err && res->Err_0.deep_view() == e,
        },
{
    match check {
        Err(e) => return Err(ContractError::Std(e.clone_error())),
        Ok(_) => {},
    }
    let state = State {
        config: Config::new(sender, msg.router_address.as_str()),
        recipient_parameters: Vec::new(),
    };
    let mut response = Response::new();
    response.add_attribute("action", "try_instantiate");
    response.add_attribute("admin", sender);
    response.add_attribute("router", msg.router_address.as_str());
    assert(state.deep_view().recipient_parameters =~= Seq::<RecipientView>::empty());
    assert(response.deep_view().attributes =~= seq![
        ("action"@, "try_instantiate"@),
        ("admin"@, sender@),
        ("router"@, msg.router_address@),
    ]);
    Ok((state, response))
}

/// `SwapIn`: exactly one coin must be sent; answers the `action` attribute.
pub open spec fn spec_try_swap_in(funds: Seq<CoinView>) -> Result<ResponseView, ContractErrorView> {
    match spec_one_coin(funds) {
        Err(e) => Err(payment_failure(e)),
        Ok(_) => Ok(attributes_response(seq![("action"@, "try_swap_in"@)])),
    }
}

/// Accepts a swap in of the one coin sent.
pub fn try_swap_in(funds: &Vec<Coin>, _vault_address: &str) -> (res: Result<Response, ContractError>)
    ensures
        result_view(&res) == spec_try_swap_in(funds.deep_view()),
{
    match one_coin(funds) {
        Ok(_) => {},
        Err(e) => return Err(ContractError::CustomError { val: e.message() }),
    }
    let mut response = Response::new();
    response.add_attribute("action", "try_swap_in");
    assert(response.deep_view().attributes =~= seq![("action"@, "try_swap_in"@)]);
    Ok(response)
}

/// `SwapOut`: native Kuji must be sent; answers the `action` attribute.
pub open spec fn spec_try_swap_out(funds: Seq<CoinView>) -> Result<ResponseView, ContractErrorView> {
    match spec_must_pay(funds, DENOM_KUJI@) {
        Err(e) => Err(payment_failure(e)),
        Ok(_) => Ok(attributes_response(seq![("action"@, "try_swap_out"@)])),
    }
}

/// Accepts a swap out of the native Kuji sent.
pub fn try_swap_out(
    funds: &Vec<Coin>,
    _denom_out: &str,
    _user_address: &str,
    _channel_id: &Option<String>,
) -> (res: Result<Response, ContractError>)
    ensures
        result_view(&res) == spec_try_swap_out(funds.deep_view()),
{
    match must_pay(funds, DENOM_KUJI) {
        Ok(_) => {},
        Err(e) => return Err(ContractError::CustomError { val: e.message() }),
    }
    let mut response = Response::new();
    response.add_attribute("action", "try_swap_out");
    assert(response.deep_view().attributes =~= seq![("action"@, "try_swap_out"@)]);
    Ok(response)
}

/// `UpdateConfig`: the admin, sending no funds, sets the timeout (in minutes)
/// and the router. `check` is the chain's answer on the new router's address.
pub open spec fn spec_try_update_config(
    s: StateView,
    sender: Seq<char>,
    funds: Seq<CoinView>,
    ibc_timeout_in_mins: Option<u8>,
    router_address: Option<Seq<char>>,
    check: Result<(), StdErrorView>,
) -> (StateView, Result<ResponseView, ContractErrorView>) {
    match spec_nonpayable(funds) {
        Err(e) => (s, Err(payment_failure(e))),
        Ok(_) => if sender != s.config.admin {
            (s, Err(ContractErrorView::Unauthorized))
        } else {
            let config1 = match ibc_timeout_in_mins {
                Some(x) => ConfigView { ibc_timeout: (x * 60) as u64, ..s.config },
                None => s.config,
            };
            let attrs1 = match ibc_timeout_in_mins {
                Some(x) => seq![
                    ("action"@, "try_update_config"@),
                    ("ibc_timeout"@, decimal_digits((x * 60) as nat)),
                ],
                None => seq![("action"@, "try_update_config"@)],
            };
            match router_address {
                None => (StateView { config: config1, ..s }, Ok(attributes_response(attrs1))),
                Some(r) => match check {
                    Err(e) => (s, Err(ContractErrorView::Std(e))),
                    Ok(_) => (
                        StateView { config: ConfigView { router: r, ..config1 }, ..s },
                        Ok(attributes_response(attrs1.push(("router"@, r)))),
                    ),
                },
            }
        },
    }
}

/// Updates the IBC timeout and the router; only the admin may, and without
/// sending funds.
pub fn try_update_config(
    state: &mut State,
    sender: &str,
    funds: &Vec<Coin>,
    ibc_timeout_in_mins: Option<u8>,
    router_address: Option<String>,
    check: &Result<(), StdError>,
) -> (res: Result<Response, ContractError>)
    ensures
        ({
            let (s2, r) = spec_try_update_config(
                old(state).deep_view(),
                sender@,
                funds.deep_view(),
                ibc_timeout_in_mins,
                router_address.deep_view(),
                result_view(check),
            );
            final(state).deep_view() == s2 && result_view(&res) == r
        }),
{
    match nonpayable(funds) {
        Ok(_) => {},
        Err(e) => return Err(ContractError::CustomError { val: e.message() }),
    }
    if !str_eq(sender, state.config.admin.as_str()) {
        return Err(ContractError::Unauthorized);
    }
    let mut response = Response::new();
    response.add_attribute("action", "try_update_config");
    let mut timeout = state.config.ibc_timeout;
    if let Some(x) = ibc_timeout_in_mins {
        timeout = (x as u64) * 60;
        let text = u128_to_string(timeout as u128);
        response.add_attribute("ibc_timeout", text.as_str());
        assert(response.deep_view().attributes =~= seq![
            ("action"@, "try_update_config"@),
            ("ibc_timeout"@, decimal_digits((x * 60) as nat)),
        ]);
    } else {
        assert(response.deep_view().attributes =~= seq![("action"@, "try_update_config"@)]);
    }
    let ghost attrs1 = response.deep_view().attributes;
    let mut router = str_to_owned(state.config.router.as_str());
    if let Some(r) = router_address {
        match check {
            Err(e) => return Err(ContractError::Std(e.clone_error())),
            Ok(_) => {},
        }
        response.add_attribute("router", r.as_str());
        assert(response.deep_view().attributes =~= attrs1.push(("router"@, r@)));
        router = r;
    }
    state.config.ibc_timeout = timeout;
    state.config.router = router;
    assert(response.deep_view().messages =~= Seq::<SubMsgView>::empty());
    assert(response.deep_view().events =~= Seq::<EventView>::empty());
    Ok(response)
}

/// Dispatches an executed message. `check` is the chain's answer on the
/// router address of an `UpdateConfig`.
pub fn execute(
    state: &mut State,
    sender: &str,
    funds: &Vec<Coin>,
    msg: ExecuteMsg,
    check: &Result<(), StdError>,
) -> (res: Result<Response, ContractError>)
    ensures
        match msg {
            ExecuteMsg::SwapIn { .. } => final(state).deep_view() == old(state).deep_view()
                && result_view(&res) == spec_try_swap_in(funds.deep_view()),
            ExecuteMsg::SwapOut { .. } => final(state).deep_view() == old(state).deep_view()
                && result_view(&res) == spec_try_swap_out(funds.deep_view()),
            ExecuteMsg::UpdateConfig { ibc_timeout_in_mins, router_address } => {
                let (s2, r) = spec_try_update_config(
                    old(state).deep_view(),
                    sender@,
                    funds.deep_view(),
                    ibc_timeout_in_mins,
                    router_address.deep_view(),
                    result_view(check),
                );
                final(state).deep_view() == s2 && result_view(&res) == r
            },
        },
{
    match msg {
        ExecuteMsg::SwapIn { vault_address } => try_swap_in(funds, vault_address.as_str()),
        ExecuteMsg::SwapOut { denom_out, user_address, channel_id } => try_swap_out(
            funds,
            denom_out.as_str(),
            user_address.as_str(),
            &channel_id,
        ),
        ExecuteMsg::UpdateConfig { ibc_timeout_in_mins, router_address } => try_update_config(
            state,
            sender,
            funds,
            ibc_timeout_in_mins,
            router_address,
            check,
        ),
    }
}

/// The stored configuration.
pub fn query_config(state: &State) -> (res: Config)
    ensures
        res.deep_view() == state.config.deep_view(),
{
    Config {
        admin: str_to_owned(state.config.admin.as_str()),
        router: str_to_owned(state.config.router.as_str()),
        ibc_timeout: state.config.ibc_timeout,
    }
}

/// Answers a query: the configuration, which the caller encodes.
pub fn query(state: &State, msg: &QueryMsg) -> (res: Config)
    ensures
        res.deep_view() == state.config.deep_view(),
{
    match msg {
        QueryMsg::QueryConfig => query_config(state),
    }
}

/// Migration changes nothing and answers an empty response.
pub fn migrate_contract(_msg: &MigrateMsg) -> (res: Response)
    ensures
        res.deep_view() == crate::response::empty_response(),
{
    Response::new()
}

/// Migration entry point.
pub fn migrate(msg: &MigrateMsg) -> (res: Response)
    ensures
        res.deep_view() == crate::response::empty_response(),
{
    migrate_contract(msg)
}


/// The position of the first event of type `ty`.
pub open spec fn first_event(events: Seq<EventView>, ty: Seq<char>) -> Option<int>
    decreases events.len(),
{
    if events.len() == 0 {
        None
    } else if events[0].ty == ty {
        Some(0)
    } else {
        match first_event(events.drop_first(), ty) {
            Some(i) => Some(i + 1),
            None => None,
        }
    }
}

proof fn lemma_first_event(events: Seq<EventView>, ty: Seq<char>, i: int)
    requires
        0 <= i <= events.len(),
        forall|k: int| 0 <= k < i ==> (#[trigger] events[k]).ty != ty,
    ensures
        i < events.len() && events[i].ty == ty ==> first_event(events, ty) == Some(i),
        i == events.len() ==> first_event(events, ty) is None,
    decreases i,
{
    if i > 0 {
        let tail = events.drop_first();
        assert forall|k: int| 0 <= k < i - 1 implies (#[trigger] tail[k]).ty != ty by {
            assert(tail[k] == events[k + 1]);
        }
        lemma_first_event(tail, ty, i - 1);
    }
}

/// The position of the first `coin_received` event of a swap's answer, or
/// the number of events where there is none.
fn find_coin_received(r: &SubMsgResponse) -> (res: usize)
    ensures
        res <= r.events.len(),
        res == r.events.len() ==> first_event(r.events.deep_view(), "coin_received"@) is None,
        res < r.events.len() ==> first_event(r.events.deep_view(), "coin_received"@) == Some(
            res as int,
        ),
{
    proof {
        reveal_strlit("coin_received");
    }
    let mut i: usize = 0;
    while i < r.events.len()
        invariant
            i <= r.events.len(),
            forall|k: int| 0 <= k < i ==> (#[trigger] r.events.deep_view()[k]).ty != "coin_received"@,
        ensures
            i <= r.events.len(),
            forall|k: int| 0 <= k < i ==> (#[trigger] r.events.deep_view()[k]).ty != "coin_received"@,
            i == r.events.len() || r.events.deep_view()[i as int].ty == "coin_received"@,
        decreases r.events.len() - i,
    {
        if str_eq(r.events[i].ty.as_str(), "coin_received") {
            break;
        }
        i = i + 1;
    }
    proof {
        lemma_first_event(r.events.deep_view(), "coin_received"@, i as int);
    }
    i
}

/// Whether a swap's answer may be read: the test that the callers of
/// `parse_recipient_amount_denom` make first.
pub fn parse_is_defined(result: &Result<SubMsgResponse, String>) -> (res: bool)
    ensures
        res == parse_defined(result_view(result)),
{
    match result {
        Err(_) => true,
        Ok(r) => {
            let i = find_coin_received(r);
            i == r.events.len() || r.events[i].attributes.len() != 1
        },
    }
}

/// Reading the swap's answer does not hit the subtraction that the framework
/// would abort on: the event found does not have exactly one attribute.
pub open spec fn parse_defined(result: Result<SubMsgResponseView, Seq<char>>) -> bool {
    result matches Ok(r) ==> (first_event(r.events, "coin_received"@) matches Some(i)
        ==> r.events[i].attributes.len() != 1)
}

/// The recipient, amount and denomination a swap's answer reports: from its
/// first `coin_received` event, the last attribute's value is the recipient
/// and the one before it is the coin received, as text.
pub open spec fn spec_parse_recipient_amount_denom(
    result: Result<SubMsgResponseView, Seq<char>>,
) -> Result<(Seq<char>, u128, Seq<char>), ContractErrorView> {
    match result {
        Err(e) => Err(ContractErrorView::CustomError { val: e }),
        Ok(r) => match first_event(r.events, "coin_received"@) {
            None => Err(ContractErrorView::EventIsNotFound),
            Some(i) => {
                let attrs = r.events[i].attributes;
                if attrs.len() == 0 {
                    Err(ContractErrorView::AttributeIsNotFound)
                } else {
                    match spec_coin_from_str(attrs[attrs.len() - 2].1) {
                        Err(e) => Err(
                            ContractErrorView::CustomError { val: coin_parse_error_text(e) },
                        ),
                        Ok(c) => Ok((attrs.last().1, c.amount, c.denom)),
                    }
                }
            },
        },
    }
}

/// Reads the recipient, amount and denomination from a swap's answer.
pub fn parse_recipient_amount_denom(result: &Result<SubMsgResponse, String>) -> (res: Result<
    (String, u128, String),
    ContractError,
>)
    requires
        parse_defined(result_view(result)),
    ensures
        result_view(&res) == spec_parse_recipient_amount_denom(result_view(result)),
{
    let r = match result {
        Ok(r) => r,
        Err(e) => return Err(ContractError::CustomError { val: str_to_owned(e.as_str()) }),
    };
    let i = find_coin_received(r);
    if i == r.events.len() {
        return Err(ContractError::EventIsNotFound);
    }
    let event = &r.events[i];
    let n = event.attributes.len();
    if n == 0 {
        return Err(ContractError::AttributeIsNotFound);
    }
    let recipient = str_to_owned(event.attributes[n - 1].value.as_str());
    let coin_string = &event.attributes[n - 2].value;
    let coin = match coin_from_str(coin_string.as_str()) {
        Ok(c) => c,
        Err(e) => return Err(ContractError::CustomError { val: e.message() }),
    };
    Ok((recipient, coin.amount, coin.denom))
}

/// The attributes that report a recipient, amount and denomination.
pub open spec fn report_attributes(recipient: Seq<char>, amount: u128, denom: Seq<char>) -> Seq<
    (Seq<char>, Seq<char>),
> {
    seq![("recipient"@, recipient), ("amount"@, decimal_digits(amount as nat)), ("denom"@, denom)]
}

fn add_report(response: &mut Response, recipient: &str, amount: u128, denom: &str)
    ensures
        final(response).deep_view() == (ResponseView {
            attributes: old(response).deep_view().attributes + report_attributes(
                recipient@,
                amount,
                denom@,
            ),
            ..old(response).deep_view()
        }),
{
    response.add_attribute("recipient", recipient);
    let text = u128_to_string(amount);
    response.add_attribute("amount", text.as_str());
    response.add_attribute("denom", denom);
    assert(response.deep_view().attributes =~= old(response).deep_view().attributes
        + report_attributes(recipient@, amount, denom@));
}

/// The answer of a swap in: its events are reported as attributes.
pub open spec fn spec_add_attributes(result: Result<SubMsgResponseView, Seq<char>>) -> Result<
    ResponseView,
    ContractErrorView,
> {
    match spec_parse_recipient_amount_denom(result) {
        Err(e) => Err(e),
        Ok((recipient, amount, denom)) => Ok(
            attributes_response(report_attributes(recipient, amount, denom)),
        ),
    }
}

/// Reports the recipient, amount and denomination of a swap's answer.
pub fn add_attributes(result: &Result<SubMsgResponse, String>) -> (res: Result<
    Response,
    ContractError,
>)
    requires
        parse_defined(result_view(result)),
    ensures
        result_view(&res) == spec_add_attributes(result_view(result)),
{
    let (recipient, amount, denom) = match parse_recipient_amount_denom(result) {
        Ok(x) => x,
        Err(e) => return Err(e),
    };
    let mut response = Response::new();
    add_report(&mut response, recipient.as_str(), amount, denom.as_str());
    assert(response.deep_view().attributes =~= report_attributes(recipient@, amount, denom@));
    Ok(response)
}

/// The answer of a swap out: the amount received is sent on to the recipient
/// at the front of the queue, which leaves it. `balance` is the chain's answer
/// to the query of the contract's balance in the denomination received.
pub open spec fn spec_try_transfer(
    s: StateView,
    block_time_nanos: u64,
    result: Result<SubMsgResponseView, Seq<char>>,
    balance: Result<u128, StdErrorView>,
) -> (StateView, Result<ResponseView, ContractErrorView>) {
    match spec_parse_recipient_amount_denom(result) {
        Err(e) => (s, Err(e)),
        Ok((_, amount, denom)) => match balance {
            Err(e) => (s, Err(ContractErrorView::Std(e))),
            Ok(b) => if b < amount {
                (s, Err(ContractErrorView::BalanceIsNotEnough { symbol: denom }))
            } else if s.recipient_parameters.len() == 0 {
                (s, Err(ContractErrorView::RecipientParametersAreNotFound))
            } else {
                let front = s.recipient_parameters[0];
                let msg = match front.channel_id {
                    None => CosmosMsgView::BankSend {
                        to_address: front.recipient_address,
                        amount: seq![CoinView { denom, amount }],
                    },
                    Some(c) => CosmosMsgView::IbcTransfer {
                        channel_id: c,
                        to_address: front.recipient_address,
                        amount: CoinView { denom, amount },
                        timeout_nanos: (block_time_nanos + s.config.ibc_timeout
                            * 1_000_000_000) as u64,
                    },
                };
                (
                    StateView { recipient_parameters: s.recipient_parameters.drop_first(), ..s },
                    Ok(
                        ResponseView {
                            messages: seq![SubMsgView { id: 0, msg, reply_on: ReplyOn::Never }],
                            attributes: report_attributes(front.recipient_address, amount, denom),
                            events: Seq::empty(),
                        },
                    ),
                )
            },
        },
    }
}

/// The timeout of an IBC transfer stays in the range of block times.
pub open spec fn transfer_time_ok(
    s: StateView,
    block_time_nanos: u64,
    result: Result<SubMsgResponseView, Seq<char>>,
    balance: Result<u128, StdErrorView>,
) -> bool {
    (spec_try_transfer(s, block_time_nanos, result, balance).1 is Ok
        && s.recipient_parameters[0].channel_id is Some) ==> block_time_nanos
        + s.config.ibc_timeout * 1_000_000_000 <= u64::MAX
}

/// Whether `try_transfer` may be called: the IBC timeout it would compute
/// stays in the range of block times. The test its caller makes first.
pub fn transfer_time_holds(
    state: &State,
    block_time_nanos: u64,
    result: &Result<SubMsgResponse, String>,
    balance: &Result<u128, StdError>,
) -> (res: bool)
    requires
        parse_defined(result_view(result)),
    ensures
        res == transfer_time_ok(
            state.deep_view(),
            block_time_nanos,
            result_view(result),
            result_view(balance),
        ),
{
    let (_recipient, amount, _denom) = match parse_recipient_amount_denom(result) {
        Ok(x) => x,
        Err(_) => return true,
    };
    let bal = match balance {
        Ok(b) => *b,
        Err(_) => return true,
    };
    if bal < amount || state.recipient_parameters.len() == 0 {
        return true;
    }
    if state.recipient_parameters[0].channel_id.is_none() {
        return true;
    }
    match state.config.ibc_timeout.checked_mul(1_000_000_000) {
        None => false,
        Some(t) => block_time_nanos.checked_add(t).is_some(),
    }
}

/// Sends the amount a swap received on to the recipient at the front of the queue.
pub fn try_transfer(
    state: &mut State,
    block_time_nanos: u64,
    result: &Result<SubMsgResponse, String>,
    balance: &Result<u128, StdError>,
) -> (res: Result<Response, ContractError>)
    requires
        parse_defined(result_view(result)),
        transfer_time_ok(
            old(state).deep_view(),
            block_time_nanos,
            result_view(result),
            result_view(balance),
        ),
    ensures
        ({
            let (s2, r) = spec_try_transfer(
                old(state).deep_view(),
                block_time_nanos,
                result_view(result),
                result_view(balance),
            );
            final(state).deep_view() == s2 && result_view(&res) == r
        }),
{
    let (_recipient, amount, denom) = match parse_recipient_amount_denom(result) {
        Ok(x) => x,
        Err(e) => return Err(e),
    };
    let bal = match balance {
        Ok(b) => *b,
        Err(e) => return Err(ContractError::Std(e.clone_error())),
    };
    if bal < amount {
        return Err(ContractError::BalanceIsNotEnough { symbol: denom });
    }
    if state.recipient_parameters.len() == 0 {
        return Err(ContractError::RecipientParametersAreNotFound);
    }
    let ghost prev = state.recipient_parameters.deep_view();
    let front = state.recipient_parameters.remove(0);
    assert(state.recipient_parameters.deep_view() =~= prev.drop_first());
    let timeout = state.config.ibc_timeout;
    let mut response = Response::new();
    let coin = Coin { denom: str_to_owned(denom.as_str()), amount };
    let msg = match front.channel_id {
        None => {
            let ghost cv = coin.deep_view();
            let mut coins: Vec<Coin> = Vec::new();
            coins.push(coin);
            assert(coins.deep_view() =~= seq![cv]);
            CosmosMsg::BankSend {
                to_address: str_to_owned(front.recipient_address.as_str()),
                amount: coins,
            }
        },
        Some(c) => {
            let t = timestamp_plus_seconds(block_time_nanos, timeout);
            CosmosMsg::IbcTransfer {
                channel_id: c,
                to_address: str_to_owned(front.recipient_address.as_str()),
                amount: coin,
                timeout_nanos: t,
            }
        },
    };
    response.add_message(msg);
    add_report(&mut response, front.recipient_address.as_str(), amount, denom.as_str());
    assert(response.deep_view().messages.len() == 1);
    assert(response.deep_view().attributes =~= report_attributes(
        front.recipient_address@,
        amount,
        denom@,
    ));
    assert(response.deep_view().events =~= Seq::<EventView>::empty());
    Ok(response)
}


/// A transfer pays the recipient at the front of the queue, never more than
/// the contract holds, and removes it from the queue; a failed one changes nothing.
pub proof fn law_transfer_serves_front(
    s: StateView,
    block_time_nanos: u64,
    result: Result<SubMsgResponseView, Seq<char>>,
    balance: Result<u128, StdErrorView>,
)
    ensures
        ({
            let (s2, r) = spec_try_transfer(s, block_time_nanos, result, balance);
            &&& r is Err ==> s2 == s
            &&& r is Ok ==> {
                &&& s.recipient_parameters.len() > 0
                &&& s2.recipient_parameters == s.recipient_parameters.drop_first()
                &&& s2.config == s.config
                &&& balance matches Ok(b) && r->Ok_0.messages.len() == 1 && match r->Ok_0.messages[0].msg {
                    CosmosMsgView::BankSend { to_address, amount } => {
                        &&& s.recipient_parameters[0].channel_id is None
                        &&& to_address == s.recipient_parameters[0].recipient_address
                        &&& amount.len() == 1 && amount[0].amount <= b
                    },
                    CosmosMsgView::IbcTransfer { channel_id, to_address, amount, .. } => {
                        &&& s.recipient_parameters[0].channel_id == Some(channel_id)
                        &&& to_address == s.recipient_parameters[0].recipient_address
                        &&& amount.amount <= b
                    },
                    _ => false,
                }
            }
        }),
{
}

/// An update by the admin, sending no funds, with a valid router if one is
/// given, succeeds: the timeout becomes the minutes given times sixty, the
/// router the address given, and the rest stays as it was.
pub proof fn law_admin_update_takes_effect(
    s: StateView,
    funds: Seq<CoinView>,
    ibc_timeout_in_mins: Option<u8>,
    router_address: Option<Seq<char>>,
    check: Result<(), StdErrorView>,
)
    requires
        funds.len() == 0,
        router_address is Some ==> check is Ok,
    ensures
        ({
            let (s2, r) = spec_try_update_config(
                s,
                s.config.admin,
                funds,
                ibc_timeout_in_mins,
                router_address,
                check,
            );
            &&& r is Ok
            &&& s2.config.ibc_timeout == match ibc_timeout_in_mins {
                Some(x) => x * 60,
                None => s.config.ibc_timeout as int,
            }
            &&& s2.config.router == match router_address {
                Some(a) => a,
                None => s.config.router,
            }
            &&& s2.config.admin == s.config.admin
            &&& s2.recipient_parameters == s.recipient_parameters
        }),
{
}

/// Only the admin, sending no funds, changes the configuration; the admin
/// never changes, the timeout stays a whole number of minutes that fits in a
/// byte, and the queue is untouched.
pub proof fn law_update_config(
    s: StateView,
    sender: Seq<char>,
    funds: Seq<CoinView>,
    ibc_timeout_in_mins: Option<u8>,
    router_address: Option<Seq<char>>,
    check: Result<(), StdErrorView>,
)
    requires
        timeout_ok(s.config.ibc_timeout),
    ensures
        ({
            let (s2, r) = spec_try_update_config(
                s,
                sender,
                funds,
                ibc_timeout_in_mins,
                router_address,
                check,
            );
            &&& (sender != s.config.admin || funds.len() > 0) ==> s2 == s && r is Err
            &&& timeout_ok(s2.config.ibc_timeout)
            &&& s2.config.admin == s.config.admin
            &&& s2.recipient_parameters == s.recipient_parameters
        }),
{
}

/// Who a transfer message pays, and over which channel (`None`: on this chain).
pub open spec fn payee(msg: CosmosMsgView) -> (Seq<char>, Option<Seq<char>>) {
    match msg {
        CosmosMsgView::BankSend { to_address, .. } => (to_address, None),
        CosmosMsgView::IbcTransfer { channel_id, to_address, .. } => (to_address, Some(channel_id)),
        _ => (Seq::empty(), None),
    }
}

/// Where the recipients of a queue are to be paid, in order.
pub open spec fn destinations(q: Seq<RecipientView>) -> Seq<(Seq<char>, Option<Seq<char>>)> {
    q.map_values(|r: RecipientView| (r.recipient_address, r.channel_id))
}

/// A swap's answer handed to `try_transfer`: the block time, the answer and
/// the balance the chain reports.
pub type TransferAnswer = (u64, Result<SubMsgResponseView, Seq<char>>, Result<u128, StdErrorView>);

/// The state after a sequence of transfers.
pub open spec fn run_transfers(s: StateView, answers: Seq<TransferAnswer>) -> StateView
    decreases answers.len(),
{
    if answers.len() == 0 {
        s
    } else {
        let (t, result, balance) = answers[0];
        run_transfers(spec_try_transfer(s, t, result, balance).0, answers.drop_first())
    }
}

/// Where a sequence of transfers pays, in order: one entry for each that succeeds.
pub open spec fn paid_by(s: StateView, answers: Seq<TransferAnswer>) -> Seq<(Seq<char>, Option<Seq<char>>)>
    decreases answers.len(),
{
    if answers.len() == 0 {
        Seq::empty()
    } else {
        let (t, result, balance) = answers[0];
        let (s1, r) = spec_try_transfer(s, t, result, balance);
        let here = match r {
            Ok(resp) => seq![payee(resp.messages[0].msg)],
            Err(_) => Seq::empty(),
        };
        here + paid_by(s1, answers.drop_first())
    }
}

/// Over any sequence of swap answers, the transfers pay the pending
/// recipients first in, first out: where the queue's recipients are to be
/// paid is where the successful transfers paid, in order, followed by where
/// the recipients still queued are to be paid.
pub proof fn law_transfers_pay_in_order(s: StateView, answers: Seq<TransferAnswer>)
    ensures
        destinations(s.recipient_parameters) == paid_by(s, answers) + destinations(
            run_transfers(s, answers).recipient_parameters,
        ),
    decreases answers.len(),
{
    if answers.len() == 0 {
        assert(Seq::<(Seq<char>, Option<Seq<char>>)>::empty() + destinations(s.recipient_parameters)
            =~= destinations(s.recipient_parameters));
    } else {
        let (t, result, balance) = answers[0];
        let (s1, r) = spec_try_transfer(s, t, result, balance);
        let rest = answers.drop_first();
        law_transfers_pay_in_order(s1, rest);
        let q = s.recipient_parameters;
        if r is Ok {
            assert(destinations(s1.recipient_parameters) =~= destinations(q).drop_first());
            assert(payee(r->Ok_0.messages[0].msg) == destinations(q)[0]);
            assert(destinations(q) =~= seq![destinations(q)[0]] + destinations(q).drop_first());
            assert(paid_by(s, answers) + destinations(run_transfers(s, answers).recipient_parameters)
                =~= seq![destinations(q)[0]] + (paid_by(s1, rest) + destinations(
                run_transfers(s1, rest).recipient_parameters,
            )));
        } else {
            assert(paid_by(s, answers) =~= paid_by(s1, rest));
        }
    }
}

/// A successful transfer pays out exactly the coin the contract received, as
/// the answer's first `coin_received` event reports it in its last attribute
/// but one (`{amount}{denom}`), on this chain or over IBC alike: the balance
/// only decides whether it may be paid, and must cover it.
pub proof fn law_transfer_pays_coin_received(
    s: StateView,
    block_time_nanos: u64,
    result: Result<SubMsgResponseView, Seq<char>>,
    balance: Result<u128, StdErrorView>,
)
    requires
        spec_try_transfer(s, block_time_nanos, result, balance).1 is Ok,
    ensures
        ({
            let r = spec_try_transfer(s, block_time_nanos, result, balance).1->Ok_0;
            let events = result->Ok_0.events;
            let attrs = events[first_event(events, "coin_received"@)->0].attributes;
            let coin = spec_coin_from_str(attrs[attrs.len() - 2].1)->Ok_0;
            &&& result is Ok
            &&& first_event(events, "coin_received"@) is Some
            &&& spec_coin_from_str(attrs[attrs.len() - 2].1) is Ok
            &&& r.messages.len() == 1
            &&& match r.messages[0].msg {
                CosmosMsgView::BankSend { amount, .. } => amount == seq![coin],
                CosmosMsgView::IbcTransfer { amount, .. } => amount == coin,
                _ => false,
            }
            &&& balance matches Ok(b) && coin.amount <= b
        }),
{
}

/// Two transfers of the same answer that differ only in the contract's
/// balance, and both succeed, pay the same: the balance gates the transfer
/// and never sets what it pays.
pub proof fn law_transfer_independent_of_balance(
    s: StateView,
    block_time_nanos: u64,
    result: Result<SubMsgResponseView, Seq<char>>,
    b1: u128,
    b2: u128,
)
    requires
        spec_try_transfer(s, block_time_nanos, result, Ok(b1)).1 is Ok,
        spec_try_transfer(s, block_time_nanos, result, Ok(b2)).1 is Ok,
    ensures
        spec_try_transfer(s, block_time_nanos, result, Ok(b1)) == spec_try_transfer(
            s,
            block_time_nanos,
            result,
            Ok(b2),
        ),
{
}

/// An IBC transfer of a reply times out the configured number of seconds
/// after the block time of the reply.
pub proof fn law_transfer_ibc_timeout(
    s: StateView,
    block_time_nanos: u64,
    result: Result<SubMsgResponseView, Seq<char>>,
    balance: Result<u128, StdErrorView>,
)
    requires
        transfer_time_ok(s, block_time_nanos, result, balance),
    ensures
        spec_try_transfer(s, block_time_nanos, result, balance).1 is Ok ==> (spec_try_transfer(s, block_time_nanos, result, balance).1->Ok_0.messages[0].msg matches CosmosMsgView::IbcTransfer {
            timeout_nanos,
            ..
        } ==> timeout_nanos == block_time_nanos + s.config.ibc_timeout * 1_000_000_000),
{
}

} // verus!
