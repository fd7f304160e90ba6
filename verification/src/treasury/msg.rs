//! The requests that the treasury takes, the payloads that it executes
//! other contracts with, and the answer to its query.

use vstd::prelude::*;
use crate::treasury::state::{Config, ConfigView};

verus! {

#[derive(Clone, Debug, PartialEq)]
pub struct InstantiateMsg {
    pub config: Config,
}

#[derive(Clone, Debug, PartialEq)]
pub enum ExecuteMsg {
    Deposit {  },
    ConfigUpdate { config: Config },
    AnchorWithdraw { amount: u128 },
    WithdrawFund {  },
}

/// The mathematical value of an `ExecuteMsg`.
pub enum ExecuteMsgView {
    Deposit,
    ConfigUpdate { config: ConfigView },
    AnchorWithdraw { amount: u128 },
    WithdrawFund,
}

impl View for ExecuteMsg {
    type V = ExecuteMsgView;

    open spec fn view(&self) -> ExecuteMsgView {
        match self {
            ExecuteMsg::Deposit {  } => ExecuteMsgView::Deposit,
            ExecuteMsg::ConfigUpdate { config } => ExecuteMsgView::ConfigUpdate { config: config@ },
            ExecuteMsg::AnchorWithdraw { amount } => ExecuteMsgView::AnchorWithdraw {
                amount: *amount,
            },
            ExecuteMsg::WithdrawFund {  } => ExecuteMsgView::WithdrawFund,
        }
    }
}

#[derive(Clone, Copy, Debug, PartialEq, Eq, Structural)]
pub struct MigrateMsg {}

/// What the savings market is executed with.
#[derive(Clone, Copy, Debug, PartialEq, Eq, Structural)]
pub enum AnchorExecuteMsg {
    DepositStable {  },
}

/// A payload that the treasury executes another contract with.
#[derive(Clone, Debug, PartialEq)]
pub enum Payload {
    /// For the savings market: a deposit of the funds that come with it.
    Anchor(AnchorExecuteMsg),
    /// For the contract of the savings token: send `amount` of the token to
    /// `contract`, the savings market, to be redeemed.
    RedeemStable { contract: String, amount: u128 },
}

/// The mathematical value of a `Payload`.
pub enum PayloadView {
    Anchor(AnchorExecuteMsg),
    RedeemStable { contract: Seq<char>, amount: u128 },
}

impl View for Payload {
    type V = PayloadView;

    open spec fn view(&self) -> PayloadView {
        match self {
            Payload::Anchor(msg) => PayloadView::Anchor(*msg),
            Payload::RedeemStable { contract, amount } => PayloadView::RedeemStable {
                contract: contract@,
                amount: *amount,
            },
        }
    }
}

#[derive(Clone, Copy, Debug, PartialEq, Eq, Structural)]
pub enum QueryMsg {
    Config {  },
}

#[derive(Clone, Debug, PartialEq)]
pub struct ConfigResponse {
    pub config: Config,
}

} // verus!
