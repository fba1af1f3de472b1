//! A test double of the swap router: it pays the minimum return of a swap
//! straight to the recipient and reports it as the real router would.
use vstd::prelude::*;

use crate::coin::{coin_text, duplicate_coins, Coin, CoinView};
use crate::mantaswap::{
    ConfigResponse, ExecuteMsg, MigrateMsg, QueryMsg, Stage, SwapsResponse, UserResponse,
};
use crate::response::{
    Attribute, CosmosMsg, CosmosMsgView, Event, EventView, ReplyOn, Response, ResponseView,
    SubMsgView,
};
use crate::text::{push_deep, str_to_owned};

verus! {

/// The address the test double reports as sender of its transfers.
pub const SENDER_ADDRESS: &'static str = "kujira15e682nq9jees29rm9j3h030af86lq2qtlejgphlspzqcvs9whf2q00nua5";

/// The answer of a swap: the minimum return is sent to the recipient (the
/// caller when none is named), with a `transfer` and a `trade` event.
pub open spec fn spec_try_swap(
    sender: Seq<char>,
    recipient: Option<Seq<char>>,
    min_return: Seq<CoinView>,
) -> ResponseView {
    let to = match recipient {
        Some(r) => r,
        None => sender,
    };
    ResponseView {
        messages: seq![
            SubMsgView {
                id: 0,
                msg: CosmosMsgView::BankSend { to_address: to, amount: min_return },
                reply_on: ReplyOn::Never,
            },
        ],
        attributes: Seq::empty(),
        events: seq![
            EventView {
                ty: "transfer"@,
                attributes: seq![
                    ("amount"@, coin_text(min_return[0])),
                    ("recipient"@, to),
                    ("sender"@, SENDER_ADDRESS@),
                ],
            },
            EventView {
                ty: "trade"@,
                attributes: seq![("quote_amount"@, "2528"@), ("type"@, "buy"@)],
            },
        ],
    }
}

/// Pays the minimum return of a swap to the recipient. The minimum return
/// must be given and hold at least one coin.
pub fn try_swap(
    sender: &str,
    _stages: &Vec<Vec<Stage>>,
    recipient: &Option<String>,
    min_return: &Option<Vec<Coin>>,
) -> (res: Result<Response, crate::error::ContractError>)
    requires
        min_return matches Some(c) && c@.len() > 0,
    ensures
        res is Ok,
        res->Ok_0.deep_view() == spec_try_swap(
            sender@,
            recipient.deep_view(),
            min_return.deep_view()->0,
        ),
{
    let to = match recipient {
        Some(r) => str_to_owned(r.as_str()),
        None => str_to_owned(sender),
    };
    let coins = match min_return {
        Some(c) => c,
        None => {
            proof {
                assert(false);
            }
            return Ok(Response::new());
        },
    };
    let amount_text = coins[0].to_text();
    let mut transfer_attrs: Vec<Attribute> = Vec::new();
    push_deep(&mut transfer_attrs, Attribute::new("amount", amount_text.as_str()));
    push_deep(&mut transfer_attrs, Attribute::new("recipient", to.as_str()));
    push_deep(&mut transfer_attrs, Attribute::new("sender", SENDER_ADDRESS));
    let mut trade_attrs: Vec<Attribute> = Vec::new();
    push_deep(&mut trade_attrs, Attribute::new("quote_amount", "2528"));
    push_deep(&mut trade_attrs, Attribute::new("type", "buy"));
    let mut response = Response::new();
    response.add_message(
        CosmosMsg::BankSend { to_address: str_to_owned(to.as_str()), amount: duplicate_coins(coins) },
    );
    response.add_event(Event { ty: str_to_owned("transfer"), attributes: transfer_attrs });
    response.add_event(Event { ty: str_to_owned("trade"), attributes: trade_attrs });
    assert(response.deep_view().messages =~= spec_try_swap(
        sender@,
        recipient.deep_view(),
        min_return.deep_view()->0,
    ).messages);
    assert(response.deep_view().events[0].attributes =~= seq![
        ("amount"@, coin_text(coins.deep_view()[0])),
        ("recipient"@, to@),
        ("sender"@, SENDER_ADDRESS@),
    ]);
    assert(response.deep_view().events[1].attributes =~= seq![
        ("quote_amount"@, "2528"@),
        ("type"@, "buy"@),
    ]);
    assert(response.deep_view().events =~= spec_try_swap(
        sender@,
        recipient.deep_view(),
        min_return.deep_view()->0,
    ).events);
    Ok(response)
}

/// Configuration updates are accepted and change nothing.
pub fn try_update_config(
    _fee: Option<u128>,
    _owner: &Option<String>,
    _treasury: &Option<String>,
    _blend_oracle_contract: &Option<String>,
) -> (res: Result<Response, crate::error::ContractError>)
    ensures
        res is Ok,
        res->Ok_0.deep_view() == (ResponseView {
            attributes: seq![("action"@, "update_config"@)],
            ..crate::response::empty_response()
        }),
{
    let mut response = Response::new();
    response.add_attribute("action", "update_config");
    assert(response.deep_view().attributes =~= seq![("action"@, "update_config"@)]);
    Ok(response)
}

/// Migration changes nothing and answers an empty response.
pub fn migrate_contract(_msg: &MigrateMsg) -> (res: Result<Response, crate::error::ContractError>)
    ensures
        res is Ok,
        res->Ok_0.deep_view() == crate::response::empty_response(),
{
    Ok(Response::new())
}

/// Migration entry point.
pub fn migrate(msg: &MigrateMsg) -> (res: Result<Response, crate::error::ContractError>)
    ensures
        res is Ok,
        res->Ok_0.deep_view() == crate::response::empty_response(),
{
    migrate_contract(msg)
}

/// The fixed configuration the test double reports.
pub fn query_config() -> (res: ConfigResponse)
    ensures
        res.owner@ == "contract42"@,
        res.fee == 42,
        res.treasury@ == "contract42"@,
        res.blend_oracle_contract@ == "contract42"@,
{
    ConfigResponse {
        owner: str_to_owned("contract42"),
        fee: 42,
        treasury: str_to_owned("contract42"),
        blend_oracle_contract: str_to_owned("contract42"),
    }
}

/// The fixed user score the test double reports.
pub fn query_user_score(_address: &str, _week: u128) -> (res: UserResponse)
    ensures
        res.address@ == "contract42"@,
        res.week == 42,
        res.value == 42,
{
    UserResponse { address: str_to_owned("contract42"), week: 42, value: 42 }
}

/// The fixed swap total the test double reports.
pub fn query_swaps_response(_week: u128) -> (res: SwapsResponse)
    ensures
        res.week == 42,
        res.value == 42,
{
    SwapsResponse { week: 42, value: 42 }
}

/// Dispatches an executed message; a swap must carry a non-empty minimum return.
pub fn execute(sender: &str, msg: &ExecuteMsg) -> (res: Result<Response, crate::error::ContractError>)
    requires
        msg matches ExecuteMsg::Swap { min_return, .. } ==> (min_return matches Some(c)
            && c@.len() > 0),
    ensures
        res is Ok,
        match msg {
            ExecuteMsg::Swap { recipient, min_return, .. } => res->Ok_0.deep_view() == spec_try_swap(
                sender@,
                recipient.deep_view(),
                min_return.deep_view()->0,
            ),
            ExecuteMsg::UpdateConfig { .. } => res->Ok_0.deep_view() == (ResponseView {
                attributes: seq![("action"@, "update_config"@)],
                ..crate::response::empty_response()
            }),
        },
{
    match msg {
        ExecuteMsg::Swap { stages, recipient, min_return } => try_swap(
            sender,
            stages,
            recipient,
            min_return,
        ),
        ExecuteMsg::UpdateConfig { fee, owner, treasury, blend_oracle_contract } => try_update_config(
            *fee,
            owner,
            treasury,
            blend_oracle_contract,
        ),
    }
}

/// The test double's answers to queries.
pub enum QueryAnswer {
    Config(ConfigResponse),
    UserScore(UserResponse),
    TotalSwaps(SwapsResponse),
}

/// Dispatches a query.
pub fn query(msg: &QueryMsg) -> (res: QueryAnswer)
    ensures
        match msg {
            QueryMsg::Config => res matches QueryAnswer::Config(c) && c.owner@ == "contract42"@
                && c.fee == 42 && c.treasury@ == "contract42"@ && c.blend_oracle_contract@
                == "contract42"@,
            QueryMsg::UserScore { .. } => res matches QueryAnswer::UserScore(u) && u.address@
                == "contract42"@ && u.week == 42 && u.value == 42,
            QueryMsg::TotalSwaps { .. } => res matches QueryAnswer::TotalSwaps(t) && t.week == 42
                && t.value == 42,
        },
{
    match msg {
        QueryMsg::Config => QueryAnswer::Config(query_config()),
        QueryMsg::UserScore { address, week } => QueryAnswer::UserScore(
            query_user_score(address.as_str(), *week),
        ),
        QueryMsg::TotalSwaps { week } => QueryAnswer::TotalSwaps(query_swaps_response(*week)),
    }
}

} // verus!
