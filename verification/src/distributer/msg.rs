//! The requests that the distributer takes and the answers to its queries.

use vstd::prelude::*;
use crate::distributer::state::{Config, ConfigView};

verus! {

#[derive(Clone, Debug, PartialEq)]
pub struct InstantiateMsg {
    pub config: Config,
}

#[derive(Clone, Debug, PartialEq)]
pub enum ExecuteMsg {
    Deposit {  },
    ConfigUpdate { config: Config },
    Claim {  },
}

/// The mathematical value of an `ExecuteMsg`.
pub enum ExecuteMsgView {
    Deposit,
    ConfigUpdate { config: ConfigView },
    Claim,
}

impl View for ExecuteMsg {
    type V = ExecuteMsgView;

    open spec fn view(&self) -> ExecuteMsgView {
        match self {
            ExecuteMsg::Deposit {  } => ExecuteMsgView::Deposit,
            ExecuteMsg::ConfigUpdate { config } => ExecuteMsgView::ConfigUpdate { config: config@ },
            ExecuteMsg::Claim {  } => ExecuteMsgView::Claim,
        }
    }
}

#[derive(Clone, Debug, PartialEq)]
pub enum QueryMsg {
    ClaimStatus { wallet: String },
    Config {  },
}

/// The mathematical value of a `QueryMsg`.
pub enum QueryMsgView {
    ClaimStatus { wallet: Seq<char> },
    Config,
}

impl View for QueryMsg {
    type V = QueryMsgView;

    open spec fn view(&self) -> QueryMsgView {
        match self {
            QueryMsg::ClaimStatus { wallet } => QueryMsgView::ClaimStatus { wallet: wallet@ },
            QueryMsg::Config {  } => QueryMsgView::Config,
        }
    }
}

#[derive(Clone, Debug, PartialEq)]
pub struct MigrateMsg {}

#[derive(Clone, Debug, PartialEq)]
pub struct ConfigResponse {
    pub config: Config,
}

/// What a wallet may claim now, the pool size up to which it has been paid
/// (absent for a wallet without a share), the pool size, and the wallet's
/// basis points.
#[derive(Clone, Copy, Debug, PartialEq, Eq, Structural)]
pub struct ClaimStatusResponse {
    pub claimable_ust: u128,
    pub claimed_ust: Option<u128>,
    pub total_ust: u128,
    pub share: u32,
}

/// The answer to a query.
#[derive(Clone, Debug, PartialEq)]
pub enum QueryResponse {
    Config(ConfigResponse),
    ClaimStatus(ClaimStatusResponse),
}

/// The mathematical value of a `QueryResponse`.
pub enum QueryResponseView {
    Config(ConfigView),
    ClaimStatus(ClaimStatusResponse),
}

impl View for QueryResponse {
    type V = QueryResponseView;

    open spec fn view(&self) -> QueryResponseView {
        match self {
            QueryResponse::Config(response) => QueryResponseView::Config(response.config@),
            QueryResponse::ClaimStatus(status) => QueryResponseView::ClaimStatus(*status),
        }
    }
}

} // verus!
