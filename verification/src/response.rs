//! Messages, events and responses that the contracts hand back to the chain.
use vstd::prelude::*;

use crate::coin::{Coin, CoinView};
use crate::mantaswap::{ExecuteMsg as MantaswapMsg, ExecuteMsgView as MantaswapMsgView};
use crate::text::str_to_owned;

verus! {

/// A key-value pair attached to a response or an event.
#[derive(Debug, Clone, PartialEq, Eq)]
pub struct Attribute {
    pub key: String,
    pub value: String,
}

impl DeepView for Attribute {
    type V = (Seq<char>, Seq<char>);

    open spec fn deep_view(&self) -> (Seq<char>, Seq<char>) {
        (self.key@, self.value@)
    }
}

impl Attribute {
    /// An attribute from its key and value.
    pub fn new(key: &str, value: &str) -> (res: Attribute)
        ensures
            res.deep_view() == (key@, value@),
    {
        Attribute { key: str_to_owned(key), value: str_to_owned(value) }
    }
}

/// An event with a type and attributes.
#[derive(Debug, Clone, PartialEq, Eq)]
pub struct Event {
    pub ty: String,
    pub attributes: Vec<Attribute>,
}

pub struct EventView {
    pub ty: Seq<char>,
    pub attributes: Seq<(Seq<char>, Seq<char>)>,
}

impl DeepView for Event {
    type V = EventView;

    open spec fn deep_view(&self) -> EventView {
        EventView { ty: self.ty@, attributes: self.attributes.deep_view() }
    }
}

/// One step of an Osmosis swap route: the pool and the denomination it gives out.
#[derive(Debug, Clone, PartialEq, Eq)]
pub struct SwapAmountInRoute {
    pub pool_id: u64,
    pub token_out_denom: String,
}

impl DeepView for SwapAmountInRoute {
    type V = (u64, Seq<char>);

    open spec fn deep_view(&self) -> (u64, Seq<char>) {
        (self.pool_id, self.token_out_denom@)
    }
}

/// A coin whose amount is written as text, as Osmosis messages carry it.
#[derive(Debug, Clone, PartialEq, Eq)]
pub struct TextCoin {
    pub denom: String,
    pub amount: String,
}

impl DeepView for TextCoin {
    type V = (Seq<char>, Seq<char>);

    open spec fn deep_view(&self) -> (Seq<char>, Seq<char>) {
        (self.denom@, self.amount@)
    }
}

/// The Osmosis message that swaps an exact amount in for at least a minimum out.
#[derive(Debug, Clone, PartialEq, Eq)]
pub struct MsgSwapExactAmountIn {
    pub sender: String,
    pub routes: Vec<SwapAmountInRoute>,
    pub token_in: Option<TextCoin>,
    pub token_out_min_amount: String,
}

pub struct MsgSwapExactAmountInView {
    pub sender: Seq<char>,
    pub routes: Seq<(u64, Seq<char>)>,
    pub token_in: Option<(Seq<char>, Seq<char>)>,
    pub token_out_min_amount: Seq<char>,
}

impl DeepView for MsgSwapExactAmountIn {
    type V = MsgSwapExactAmountInView;

    open spec fn deep_view(&self) -> MsgSwapExactAmountInView {
        MsgSwapExactAmountInView {
            sender: self.sender@,
            routes: self.routes.deep_view(),
            token_in: self.token_in.deep_view(),
            token_out_min_amount: self.token_out_min_amount@,
        }
    }
}

/// A message the contract sends.
#[derive(Debug, Clone, PartialEq, Eq)]
pub enum CosmosMsg {
    /// A bank transfer on this chain.
    BankSend { to_address: String, amount: Vec<Coin> },
    /// A transfer over an IBC channel, timing out at `timeout_nanos` (block time, nanoseconds).
    IbcTransfer { channel_id: String, to_address: String, amount: Coin, timeout_nanos: u64 },
    /// A call of a contract with a message of the swap router.
    WasmExecute { contract_addr: String, msg: MantaswapMsg, funds: Vec<Coin> },
    /// An Osmosis swap.
    SwapExactAmountIn(MsgSwapExactAmountIn),
}

pub enum CosmosMsgView {
    BankSend { to_address: Seq<char>, amount: Seq<CoinView> },
    IbcTransfer { channel_id: Seq<char>, to_address: Seq<char>, amount: CoinView, timeout_nanos: u64 },
    WasmExecute { contract_addr: Seq<char>, msg: MantaswapMsgView, funds: Seq<CoinView> },
    SwapExactAmountIn(MsgSwapExactAmountInView),
}

impl DeepView for CosmosMsg {
    type V = CosmosMsgView;

    open spec fn deep_view(&self) -> CosmosMsgView {
        match self {
            CosmosMsg::BankSend { to_address, amount } => CosmosMsgView::BankSend {
                to_address: to_address@,
                amount: amount.deep_view(),
            },
            CosmosMsg::IbcTransfer { channel_id, to_address, amount, timeout_nanos } => {
                CosmosMsgView::IbcTransfer {
                    channel_id: channel_id@,
                    to_address: to_address@,
                    amount: amount.deep_view(),
                    timeout_nanos: *timeout_nanos,
                }
            },
            CosmosMsg::WasmExecute { contract_addr, msg, funds } => CosmosMsgView::WasmExecute {
                contract_addr: contract_addr@,
                msg: msg.deep_view(),
                funds: funds.deep_view(),
            },
            CosmosMsg::SwapExactAmountIn(m) => CosmosMsgView::SwapExactAmountIn(m.deep_view()),
        }
    }
}

/// Calls `cosmwasm_std::Timestamp::plus_seconds`: the time `secs` seconds
/// after `nanos` (nanoseconds since the epoch); it panics past the range, so
/// that is ruled out.
#[verifier::external_body]
pub(crate) fn timestamp_plus_seconds(nanos: u64, secs: u64) -> (res: u64)
    requires
        nanos + secs * 1_000_000_000 <= u64::MAX,
    ensures
        res == nanos + secs * 1_000_000_000,
{
    cosmwasm_std::Timestamp::from_nanos(nanos).plus_seconds(secs).nanos()
}

/// When the chain calls the contract back about a sub-message.
#[derive(Debug, Clone, Copy, PartialEq, Eq)]
pub enum ReplyOn {
    Never,
    Success,
}

impl DeepView for ReplyOn {
    type V = ReplyOn;

    open spec fn deep_view(&self) -> ReplyOn {
        *self
    }
}

/// A message with its reply identifier and reply rule.
#[derive(Debug, Clone, PartialEq, Eq)]
pub struct SubMsg {
    pub id: u64,
    pub msg: CosmosMsg,
    pub reply_on: ReplyOn,
}

pub struct SubMsgView {
    pub id: u64,
    pub msg: CosmosMsgView,
    pub reply_on: ReplyOn,
}

impl DeepView for SubMsg {
    type V = SubMsgView;

    open spec fn deep_view(&self) -> SubMsgView {
        SubMsgView { id: self.id, msg: self.msg.deep_view(), reply_on: self.reply_on }
    }
}

/// What a contract call answers: messages to send, attributes and events.
#[derive(Debug, Clone, PartialEq, Eq)]
pub struct Response {
    pub messages: Vec<SubMsg>,
    pub attributes: Vec<Attribute>,
    pub events: Vec<Event>,
}

pub struct ResponseView {
    pub messages: Seq<SubMsgView>,
    pub attributes: Seq<(Seq<char>, Seq<char>)>,
    pub events: Seq<EventView>,
}

impl DeepView for Response {
    type V = ResponseView;

    open spec fn deep_view(&self) -> ResponseView {
        ResponseView {
            messages: self.messages.deep_view(),
            attributes: self.attributes.deep_view(),
            events: self.events.deep_view(),
        }
    }
}

/// The empty response.
pub open spec fn empty_response() -> ResponseView {
    ResponseView { messages: Seq::empty(), attributes: Seq::empty(), events: Seq::empty() }
}

impl Response {
    /// A response with nothing in it.
    pub fn new() -> (res: Response)
        ensures
            res.deep_view() == empty_response(),
    {
        let res = Response { messages: Vec::new(), attributes: Vec::new(), events: Vec::new() };
        assert(res.deep_view().messages =~= Seq::<SubMsgView>::empty());
        assert(res.deep_view().attributes =~= Seq::<(Seq<char>, Seq<char>)>::empty());
        assert(res.deep_view().events =~= Seq::<EventView>::empty());
        res
    }

    /// Adds an attribute at the end.
    pub fn add_attribute(&mut self, key: &str, value: &str)
        ensures
            final(self).deep_view() == (ResponseView {
                attributes: old(self).deep_view().attributes.push((key@, value@)),
                ..old(self).deep_view()
            }),
    {
        let ghost prev = self.attributes@;
        self.attributes.push(Attribute::new(key, value));
        assert(self.deep_view().attributes =~= old(self).deep_view().attributes.push(
            (key@, value@),
        )) by {
            assert(self.attributes@ == prev.push(self.attributes@[prev.len() as int]));
        }
    }

    /// Adds a message that is not answered with a reply.
    pub fn add_message(&mut self, msg: CosmosMsg)
        ensures
            final(self).deep_view() == (ResponseView {
                messages: old(self).deep_view().messages.push(
                    SubMsgView { id: 0, msg: msg.deep_view(), reply_on: ReplyOn::Never },
                ),
                ..old(self).deep_view()
            }),
    {
        let ghost prev = self.messages@;
        let ghost mv = msg.deep_view();
        self.messages.push(SubMsg { id: 0, msg, reply_on: ReplyOn::Never });
        assert(self.deep_view().messages =~= old(self).deep_view().messages.push(
            SubMsgView { id: 0, msg: mv, reply_on: ReplyOn::Never },
        )) by {
            assert(self.messages@ == prev.push(self.messages@[prev.len() as int]));
        }
    }

    /// Adds a message that is answered with a reply of identifier `id` when it succeeds.
    pub fn add_submessage_on_success(&mut self, msg: CosmosMsg, id: u64)
        ensures
            final(self).deep_view() == (ResponseView {
                messages: old(self).deep_view().messages.push(
                    SubMsgView { id, msg: msg.deep_view(), reply_on: ReplyOn::Success },
                ),
                ..old(self).deep_view()
            }),
    {
        let ghost prev = self.messages@;
        let ghost mv = msg.deep_view();
        self.messages.push(SubMsg { id, msg, reply_on: ReplyOn::Success });
        assert(self.deep_view().messages =~= old(self).deep_view().messages.push(
            SubMsgView { id, msg: mv, reply_on: ReplyOn::Success },
        )) by {
            assert(self.messages@ == prev.push(self.messages@[prev.len() as int]));
        }
    }

    /// Adds an event at the end.
    pub fn add_event(&mut self, event: Event)
        ensures
            final(self).deep_view() == (ResponseView {
                events: old(self).deep_view().events.push(event.deep_view()),
                ..old(self).deep_view()
            }),
    {
        let ghost prev = self.events@;
        let ghost ev = event.deep_view();
        self.events.push(event);
        assert(self.deep_view().events =~= old(self).deep_view().events.push(ev)) by {
            assert(self.events@ == prev.push(self.events@[prev.len() as int]));
        }
    }
}

/// The answer of a sub-message that succeeded: its events and data.
#[derive(Debug, Clone, PartialEq, Eq)]
pub struct SubMsgResponse {
    pub events: Vec<Event>,
    pub data: Option<Vec<u8>>,
}

pub struct SubMsgResponseView {
    pub events: Seq<EventView>,
    pub data: Option<Seq<u8>>,
}

impl DeepView for SubMsgResponse {
    type V = SubMsgResponseView;

    open spec fn deep_view(&self) -> SubMsgResponseView {
        SubMsgResponseView {
            events: self.events.deep_view(),
            data: match &self.data {
                Some(d) => Some(d@),
                None => None,
            },
        }
    }
}

} // verus!
