//! The requests that the minting contract takes, the payloads that it
//! executes other contracts with, and the answers to its queries.

use vstd::prelude::*;
use crate::mint::state::{Config, ConfigView, Metadata, MetadataView, MintStatus};

verus! {

#[derive(Clone, Debug, PartialEq)]
pub struct InstantiateMsg {
    pub config: Config,
}

#[derive(Clone, Debug, PartialEq)]
pub enum ExecuteMsg {
    ConfigUpdate { config: Config },
    Mint {  },
    SecureMint { owner: String, token_uri: String, extension: Metadata },
}

/// The mathematical value of an `ExecuteMsg`.
pub enum ExecuteMsgView {
    ConfigUpdate { config: ConfigView },
    Mint,
    SecureMint { owner: Seq<char>, token_uri: Seq<char>, extension: MetadataView },
}

impl View for ExecuteMsg {
    type V = ExecuteMsgView;

    open spec fn view(&self) -> ExecuteMsgView {
        match self {
            ExecuteMsg::ConfigUpdate { config } => ExecuteMsgView::ConfigUpdate { config: config@ },
            ExecuteMsg::Mint {  } => ExecuteMsgView::Mint,
            ExecuteMsg::SecureMint { owner, token_uri, extension } => ExecuteMsgView::SecureMint {
                owner: owner@,
                token_uri: token_uri@,
                extension: extension@,
            },
        }
    }
}

#[derive(Clone, Copy, Debug, PartialEq, Eq, Structural)]
pub struct MigrateMsg {}

/// What the contract that holds the collection is executed with.
#[derive(Clone, Debug, PartialEq)]
pub enum NftExecuteMsg {
    Mint {
        token_id: String,
        /// The owner of the new token.
        owner: String,
        /// Where the token's description is found.
        token_uri: String,
        /// What the token carries.
        extension: Metadata,
    },
}

/// The mathematical value of an `NftExecuteMsg`.
pub enum NftExecuteMsgView {
    Mint { token_id: Seq<char>, owner: Seq<char>, token_uri: Seq<char>, extension: MetadataView },
}

impl View for NftExecuteMsg {
    type V = NftExecuteMsgView;

    open spec fn view(&self) -> NftExecuteMsgView {
        match self {
            NftExecuteMsg::Mint { token_id, owner, token_uri, extension } => {
                NftExecuteMsgView::Mint {
                    token_id: token_id@,
                    owner: owner@,
                    token_uri: token_uri@,
                    extension: extension@,
                }
            },
        }
    }
}

/// What a beneficiary's forwarding contract is executed with.
#[derive(Clone, Copy, Debug, PartialEq, Eq, Structural)]
pub enum FundDepositExecuteMsg {
    Deposit {  },
}

/// A payload that the minting contract executes another contract with.
#[derive(Clone, Debug, PartialEq)]
pub enum Payload {
    Mint(NftExecuteMsg),
    Deposit(FundDepositExecuteMsg),
}

/// The mathematical value of a `Payload`.
pub enum PayloadView {
    Mint(NftExecuteMsgView),
    Deposit(FundDepositExecuteMsg),
}

impl View for Payload {
    type V = PayloadView;

    open spec fn view(&self) -> PayloadView {
        match self {
            Payload::Mint(msg) => PayloadView::Mint(msg@),
            Payload::Deposit(msg) => PayloadView::Deposit(*msg),
        }
    }
}

#[derive(Clone, Copy, Debug, PartialEq, Eq, Structural)]
pub enum QueryMsg {
    /// How many tokens have been numbered.
    Status {  },
    /// The configuration.
    Config {  },
}

#[derive(Clone, Copy, Debug, PartialEq, Eq, Structural)]
pub struct StatusResponse {
    pub mint_status: MintStatus,
}

#[derive(Clone, Debug, PartialEq)]
pub struct ConfigResponse {
    pub config: Config,
}

/// The answer to a query.
#[derive(Clone, Debug, PartialEq)]
pub enum QueryResponse {
    Status(StatusResponse),
    Config(ConfigResponse),
}

/// The mathematical value of a `QueryResponse`.
pub enum QueryResponseView {
    Status(MintStatus),
    Config(ConfigView),
}

impl View for QueryResponse {
    type V = QueryResponseView;

    open spec fn view(&self) -> QueryResponseView {
        match self {
            QueryResponse::Status(response) => QueryResponseView::Status(response.mint_status),
            QueryResponse::Config(response) => QueryResponseView::Config(response.config@),
        }
    }
}

} // verus!
