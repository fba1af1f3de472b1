//! Messages and state of the swap router, and its test double.
use vstd::prelude::*;

use crate::coin::{Coin, CoinView};
use crate::text::str_to_owned;

verus! {

/// A swap stage: the pair contract and the denomination it is given.
pub type Stage = (String, String);

/// Messages the swap router executes.
#[derive(Debug, Clone, PartialEq, Eq)]
pub enum ExecuteMsg {
    Swap { stages: Vec<Vec<Stage>>, recipient: Option<String>, min_return: Option<Vec<Coin>> },
    UpdateConfig {
        fee: Option<u128>,
        owner: Option<String>,
        treasury: Option<String>,
        blend_oracle_contract: Option<String>,
    },
}

pub enum ExecuteMsgView {
    Swap {
        stages: Seq<Seq<(Seq<char>, Seq<char>)>>,
        recipient: Option<Seq<char>>,
        min_return: Option<Seq<CoinView>>,
    },
    UpdateConfig {
        fee: Option<u128>,
        owner: Option<Seq<char>>,
        treasury: Option<Seq<char>>,
        blend_oracle_contract: Option<Seq<char>>,
    },
}

impl DeepView for ExecuteMsg {
    type V = ExecuteMsgView;

    open spec fn deep_view(&self) -> ExecuteMsgView {
        match self {
            ExecuteMsg::Swap { stages, recipient, min_return } => ExecuteMsgView::Swap {
                stages: stages.deep_view(),
                recipient: recipient.deep_view(),
                min_return: min_return.deep_view(),
            },
            ExecuteMsg::UpdateConfig { fee, owner, treasury, blend_oracle_contract } => {
                ExecuteMsgView::UpdateConfig {
                    fee: *fee,
                    owner: owner.deep_view(),
                    treasury: treasury.deep_view(),
                    blend_oracle_contract: blend_oracle_contract.deep_view(),
                }
            },
        }
    }
}


/// Message that creates the swap router.
#[derive(Debug, Clone, PartialEq, Eq)]
pub struct InstantiateMsg {
    pub blend_oracle_contract: String,
    pub owner: String,
    pub treasury: String,
    pub fee: u128,
}

/// Queries the swap router answers.
#[derive(Debug, Clone, PartialEq, Eq)]
pub enum QueryMsg {
    Config,
    UserScore { address: String, week: u128 },
    TotalSwaps { week: u128 },
}

/// Message that migrates the swap router: it has no value, so no migration is accepted.
pub type MigrateMsg = core::convert::Infallible;

/// The router's answer to the `Config` query.
#[derive(Debug, Clone, PartialEq, Eq)]
pub struct ConfigResponse {
    pub owner: String,
    pub fee: u128,
    pub treasury: String,
    pub blend_oracle_contract: String,
}

/// The router's answer to the `UserScore` query.
#[derive(Debug, Clone, PartialEq, Eq)]
pub struct UserResponse {
    pub address: String,
    pub week: u128,
    pub value: u128,
}

/// The router's answer to the `TotalSwaps` query.
#[derive(Debug, Clone, PartialEq, Eq)]
pub struct SwapsResponse {
    pub week: u128,
    pub value: u128,
}

/// The swap router's stored configuration.
#[derive(Debug, Clone, PartialEq, Eq)]
pub struct Config {
    pub owner: String,
    pub fee: u128,
    pub treasury: String,
    pub blend_oracle_contract: String,
}

/// A copy of one stage list.
fn duplicate_stage_list(list: &Vec<Stage>) -> (res: Vec<Stage>)
    ensures
        res.deep_view() == list.deep_view(),
{
    let mut out: Vec<Stage> = Vec::new();
    let mut i: usize = 0;
    while i < list.len()
        invariant
            i <= list.len(),
            out@.len() == i,
            forall|k: int| 0 <= k < i ==> (#[trigger] out@[k]).deep_view() == list@[k].deep_view(),
        decreases list.len() - i,
    {
        let (a, b) = &list[i];
        out.push((str_to_owned(a.as_str()), str_to_owned(b.as_str())));
        i = i + 1;
    }
    assert(out.deep_view() =~= list.deep_view());
    out
}

/// A copy of the stages of a swap.
pub fn duplicate_stages(stages: &Vec<Vec<Stage>>) -> (res: Vec<Vec<Stage>>)
    ensures
        res.deep_view() == stages.deep_view(),
{
    let mut out: Vec<Vec<Stage>> = Vec::new();
    let mut i: usize = 0;
    while i < stages.len()
        invariant
            i <= stages.len(),
            out@.len() == i,
            forall|k: int| 0 <= k < i ==> (#[trigger] out@[k]).deep_view() == stages@[k].deep_view(),
        decreases stages.len() - i,
    {
        out.push(duplicate_stage_list(&stages[i]));
        i = i + 1;
    }
    assert(out.deep_view() =~= stages.deep_view());
    out
}

} // verus!
