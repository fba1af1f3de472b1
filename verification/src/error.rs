//! Errors of the contracts and the text they are reported with.
use vstd::prelude::*;

use crate::text::str_to_owned;

verus! {

/// The standard error of the host framework, held by what the contracts read of it.
#[derive(Debug, Clone, PartialEq, Eq)]
pub enum StdError {
    GenericErr { msg: String },
    NotFound { kind: String },
    ParseErr { target_type: String, msg: String },
    SerializeErr { source_type: String, msg: String },
    /// Any other kind, held by its message.
    Other { text: String },
}

pub enum StdErrorView {
    GenericErr { msg: Seq<char> },
    NotFound { kind: Seq<char> },
    ParseErr { target_type: Seq<char>, msg: Seq<char> },
    SerializeErr { source_type: Seq<char>, msg: Seq<char> },
    Other { text: Seq<char> },
}

impl DeepView for StdError {
    type V = StdErrorView;

    open spec fn deep_view(&self) -> StdErrorView {
        match self {
            StdError::GenericErr { msg } => StdErrorView::GenericErr { msg: msg@ },
            StdError::NotFound { kind } => StdErrorView::NotFound { kind: kind@ },
            StdError::ParseErr { target_type, msg } => StdErrorView::ParseErr {
                target_type: target_type@,
                msg: msg@,
            },
            StdError::SerializeErr { source_type, msg } => StdErrorView::SerializeErr {
                source_type: source_type@,
                msg: msg@,
            },
            StdError::Other { text } => StdErrorView::Other { text: text@ },
        }
    }
}

/// The text of a standard error.
pub open spec fn std_error_text(e: StdErrorView) -> Seq<char> {
    match e {
        StdErrorView::GenericErr { msg } => "Generic error: "@ + msg,
        StdErrorView::NotFound { kind } => kind + " not found"@,
        StdErrorView::ParseErr { target_type, msg } => "Error parsing into type "@ + target_type
            + ": "@ + msg,
        StdErrorView::SerializeErr { source_type, msg } => "Error serializing type "@
            + source_type + ": "@ + msg,
        StdErrorView::Other { text } => text,
    }
}

impl StdError {
    /// A generic error with the given message.
    pub fn generic_err(msg: &str) -> (res: StdError)
        ensures
            res.deep_view() == (StdErrorView::GenericErr { msg: msg@ }),
    {
        StdError::GenericErr { msg: str_to_owned(msg) }
    }

    /// A copy of the error.
    pub fn clone_error(&self) -> (res: StdError)
        ensures
            res.deep_view() == self.deep_view(),
    {
        match self {
            StdError::GenericErr { msg } => StdError::GenericErr { msg: str_to_owned(msg.as_str()) },
            StdError::NotFound { kind } => StdError::NotFound { kind: str_to_owned(kind.as_str()) },
            StdError::ParseErr { target_type, msg } => StdError::ParseErr {
                target_type: str_to_owned(target_type.as_str()),
                msg: str_to_owned(msg.as_str()),
            },
            StdError::SerializeErr { source_type, msg } => StdError::SerializeErr {
                source_type: str_to_owned(source_type.as_str()),
                msg: str_to_owned(msg.as_str()),
            },
            StdError::Other { text } => StdError::Other { text: str_to_owned(text.as_str()) },
        }
    }

    /// The text the error is reported with.
    pub fn message(&self) -> (res: String)
        ensures
            res@ == std_error_text(self.deep_view()),
    {
        match self {
            StdError::GenericErr { msg } => {
                let mut s = str_to_owned("Generic error: ");
                s.append(msg.as_str());
                s
            },
            StdError::NotFound { kind } => {
                let mut s = str_to_owned(kind.as_str());
                s.append(" not found");
                s
            },
            StdError::ParseErr { target_type, msg } => {
                let mut s = str_to_owned("Error parsing into type ");
                s.append(target_type.as_str());
                s.append(": ");
                s.append(msg.as_str());
                s
            },
            StdError::SerializeErr { source_type, msg } => {
                let mut s = str_to_owned("Error serializing type ");
                s.append(source_type.as_str());
                s.append(": ");
                s.append(msg.as_str());
                s
            },
            StdError::Other { text } => str_to_owned(text.as_str()),
        }
    }
}


/// A printable ASCII text without quotes or backslashes: the `Debug` format
/// of such a string is the string between double quotes.
pub open spec fn plain_text(s: Seq<char>) -> bool {
    forall|i: int|
        0 <= i < s.len() ==> {
            let c = #[trigger] s[i];
            ' ' <= c <= '~' && c != '"' && c != '\\' && c != '\''
        }
}

/// What `format!("{:?}", s)` gives for a string `s`.
pub uninterp spec fn debug_quoted(s: Seq<char>) -> Seq<char>;

/// Calls std's `Debug` formatting of a string slice. Its result is named
/// `debug_quoted`; for a plain text it is the text between double quotes,
/// as the documentation of `str::escape_debug` describes. How other
/// characters are escaped is left unsaid.
#[verifier::external_body]
pub(crate) fn debug_text(s: &str) -> (res: String)
    ensures
        res@ == debug_quoted(s@),
        plain_text(s@) ==> res@ == "\""@ + s@ + "\""@,
{
    format!("{:?}", s)
}

/// Errors of the aggregator contracts.
#[derive(Debug, Clone, PartialEq, Eq)]
pub enum ContractError {
    Std(StdError),
    CustomError { val: String },
    Unauthorized,
    UndefinedReplyId,
    EventIsNotFound,
    AttributeIsNotFound,
    WrongMantaswapMsg,
    BalanceIsNotEnough { symbol: String },
    RecipientParametersAreNotFound,
    ChannelIdIsNotFound,
    AssetIsNotIbcToken,
    CoinIsNotFound,
    PrefixIsNotFound,
    WrongIbcParameters { prefix: String, ibc_token: String, channel_id: Option<String> },
    PoolIsNotFound,
    PoolsCanNotBeParsed,
}

pub enum ContractErrorView {
    Std(StdErrorView),
    CustomError { val: Seq<char> },
    Unauthorized,
    UndefinedReplyId,
    EventIsNotFound,
    AttributeIsNotFound,
    WrongMantaswapMsg,
    BalanceIsNotEnough { symbol: Seq<char> },
    RecipientParametersAreNotFound,
    ChannelIdIsNotFound,
    AssetIsNotIbcToken,
    CoinIsNotFound,
    PrefixIsNotFound,
    WrongIbcParameters { prefix: Seq<char>, ibc_token: Seq<char>, channel_id: Option<Seq<char>> },
    PoolIsNotFound,
    PoolsCanNotBeParsed,
}

impl DeepView for ContractError {
    type V = ContractErrorView;

    open spec fn deep_view(&self) -> ContractErrorView {
        match self {
            ContractError::Std(e) => ContractErrorView::Std(e.deep_view()),
            ContractError::CustomError { val } => ContractErrorView::CustomError { val: val@ },
            ContractError::Unauthorized => ContractErrorView::Unauthorized,
            ContractError::UndefinedReplyId => ContractErrorView::UndefinedReplyId,
            ContractError::EventIsNotFound => ContractErrorView::EventIsNotFound,
            ContractError::AttributeIsNotFound => ContractErrorView::AttributeIsNotFound,
            ContractError::WrongMantaswapMsg => ContractErrorView::WrongMantaswapMsg,
            ContractError::BalanceIsNotEnough { symbol } => ContractErrorView::BalanceIsNotEnough {
                symbol: symbol@,
            },
            ContractError::RecipientParametersAreNotFound => ContractErrorView::RecipientParametersAreNotFound,
            ContractError::ChannelIdIsNotFound => ContractErrorView::ChannelIdIsNotFound,
            ContractError::AssetIsNotIbcToken => ContractErrorView::AssetIsNotIbcToken,
            ContractError::CoinIsNotFound => ContractErrorView::CoinIsNotFound,
            ContractError::PrefixIsNotFound => ContractErrorView::PrefixIsNotFound,
            ContractError::WrongIbcParameters { prefix, ibc_token, channel_id } => {
                ContractErrorView::WrongIbcParameters {
                    prefix: prefix@,
                    ibc_token: ibc_token@,
                    channel_id: channel_id.deep_view(),
                }
            },
            ContractError::PoolIsNotFound => ContractErrorView::PoolIsNotFound,
            ContractError::PoolsCanNotBeParsed => ContractErrorView::PoolsCanNotBeParsed,
        }
    }
}

/// The text a contract error is reported with.
pub open spec fn contract_error_text(e: ContractErrorView) -> Seq<char> {
    match e {
        ContractErrorView::Std(s) => std_error_text(s),
        ContractErrorView::CustomError { val } => "Custom Error val: "@ + debug_quoted(val),
        ContractErrorView::Unauthorized => "Sender does not have access permissions!"@,
        ContractErrorView::UndefinedReplyId => "Undefined Reply ID!"@,
        ContractErrorView::EventIsNotFound => "Event is not found!"@,
        ContractErrorView::AttributeIsNotFound => "Attribute is not found!"@,
        ContractErrorView::WrongMantaswapMsg => "Wrong MantaSwap message type!"@,
        ContractErrorView::BalanceIsNotEnough { symbol } => debug_quoted(symbol)
            + " balance isn't enough!"@,
        ContractErrorView::RecipientParametersAreNotFound => "Recipient parameters are not found!"@,
        ContractErrorView::ChannelIdIsNotFound => "channel_id is not found!"@,
        ContractErrorView::AssetIsNotIbcToken => "The asset is not IBC token!"@,
        ContractErrorView::CoinIsNotFound => "Coin is not found!"@,
        ContractErrorView::PrefixIsNotFound => "Prefix is not found!"@,
        ContractErrorView::WrongIbcParameters { .. } => "Wrong IBC parameters!"@,
        ContractErrorView::PoolIsNotFound => "Pool is not found!"@,
        ContractErrorView::PoolsCanNotBeParsed => "Pools can not be parsed!"@,
    }
}

impl ContractError {
    /// The text the error is reported with.
    pub fn message(&self) -> (res: String)
        ensures
            res@ == contract_error_text(self.deep_view()),
    {
        match self {
            ContractError::Std(e) => e.message(),
            ContractError::CustomError { val } => {
                let mut s = str_to_owned("Custom Error val: ");
                let q = debug_text(val.as_str());
                s.append(q.as_str());
                s
            },
            ContractError::Unauthorized => str_to_owned("Sender does not have access permissions!"),
            ContractError::UndefinedReplyId => str_to_owned("Undefined Reply ID!"),
            ContractError::EventIsNotFound => str_to_owned("Event is not found!"),
            ContractError::AttributeIsNotFound => str_to_owned("Attribute is not found!"),
            ContractError::WrongMantaswapMsg => str_to_owned("Wrong MantaSwap message type!"),
            ContractError::BalanceIsNotEnough { symbol } => {
                let mut s = debug_text(symbol.as_str());
                s.append(" balance isn't enough!");
                s
            },
            ContractError::RecipientParametersAreNotFound => str_to_owned(
                "Recipient parameters are not found!",
            ),
            ContractError::ChannelIdIsNotFound => str_to_owned("channel_id is not found!"),
            ContractError::AssetIsNotIbcToken => str_to_owned("The asset is not IBC token!"),
            ContractError::CoinIsNotFound => str_to_owned("Coin is not found!"),
            ContractError::PrefixIsNotFound => str_to_owned("Prefix is not found!"),
            ContractError::WrongIbcParameters { .. } => str_to_owned("Wrong IBC parameters!"),
            ContractError::PoolIsNotFound => str_to_owned("Pool is not found!"),
            ContractError::PoolsCanNotBeParsed => str_to_owned("Pools can not be parsed!"),
        }
    }
}

/// Turns a standard error into a contract error that carries its text.
pub fn from_std_err(std_error: StdError) -> (res: ContractError)
    ensures
        res.deep_view() == (ContractErrorView::CustomError {
            val: std_error_text(std_error.deep_view()),
        }),
{
    ContractError::CustomError { val: std_error.message() }
}

/// Turns a contract error into a generic standard error that carries its text.
pub fn to_std_err(contract_error: ContractError) -> (res: StdError)
    ensures
        res.deep_view() == (StdErrorView::GenericErr {
            msg: contract_error_text(contract_error.deep_view()),
        }),
{
    StdError::GenericErr { msg: contract_error.message() }
}

/// A placeholder error type that has no value: a result with it never fails.
pub type Never = core::convert::Infallible;

} // verus!
