//! The requests that the sale contract takes, the payloads that it executes
//! other contracts with, and the answers to its queries.

use vstd::prelude::*;
use crate::delorean::state::{
    Config, ConfigView, Metadata, MetadataView, RoundInfo, RoundInfoView, WinnerInfo,
    WinnerInfoView,
};

verus! {

#[derive(Clone, Debug, PartialEq)]
pub struct InstantiateMsg {
    pub config: Config,
}

#[derive(Clone, Debug, PartialEq)]
pub enum ExecuteMsg {
    ConfigUpdate { config: Config },
    WinnerUpdate { winner: WinnerInfo },
    RoundUpdate { round_info: RoundInfo },
    ClaimPrize { burn_nft_id: String },
    Degen { burn_nft_id: String },
    /// Products are counted from 1.
    Mint { nft_type: u32 },
}

/// The mathematical value of an `ExecuteMsg`.
pub enum ExecuteMsgView {
    ConfigUpdate { config: ConfigView },
    WinnerUpdate { winner: WinnerInfoView },
    RoundUpdate { round_info: RoundInfoView },
    ClaimPrize { burn_nft_id: Seq<char> },
    Degen { burn_nft_id: Seq<char> },
    Mint { nft_type: u32 },
}

impl View for ExecuteMsg {
    type V = ExecuteMsgView;

    open spec fn view(&self) -> ExecuteMsgView {
        match self {
            ExecuteMsg::ConfigUpdate { config } => ExecuteMsgView::ConfigUpdate { config: config@ },
            ExecuteMsg::WinnerUpdate { winner } => ExecuteMsgView::WinnerUpdate { winner: winner@ },
            ExecuteMsg::RoundUpdate { round_info } => ExecuteMsgView::RoundUpdate {
                round_info: round_info@,
            },
            ExecuteMsg::ClaimPrize { burn_nft_id } => ExecuteMsgView::ClaimPrize {
                burn_nft_id: burn_nft_id@,
            },
            ExecuteMsg::Degen { burn_nft_id } => ExecuteMsgView::Degen {
                burn_nft_id: burn_nft_id@,
            },
            ExecuteMsg::Mint { nft_type } => ExecuteMsgView::Mint { nft_type: *nft_type },
        }
    }
}

#[derive(Clone, Copy, Debug, PartialEq, Eq, Structural)]
pub struct MigrateMsg {}

/// What a beneficiary's forwarding contract is executed with.
#[derive(Clone, Copy, Debug, PartialEq, Eq, Structural)]
pub enum FundDepositMsg {
    Deposit {  },
}

/// What the minting contract is executed with.
#[derive(Clone, Debug, PartialEq)]
pub enum SecureMintMsg {
    SecureMint { owner: String, token_uri: String, extension: Metadata },
}

/// The mathematical value of a `SecureMintMsg`.
pub enum SecureMintMsgView {
    SecureMint { owner: Seq<char>, token_uri: Seq<char>, extension: MetadataView },
}

impl View for SecureMintMsg {
    type V = SecureMintMsgView;

    open spec fn view(&self) -> SecureMintMsgView {
        match self {
            SecureMintMsg::SecureMint { owner, token_uri, extension } => {
                SecureMintMsgView::SecureMint {
                    owner: owner@,
                    token_uri: token_uri@,
                    extension: extension@,
                }
            },
        }
    }
}

/// What the contract that holds the collectibles is executed with.
#[derive(Clone, Debug, PartialEq)]
pub enum Cw721ExecuteMsg {
    Burn { token_id: String },
}

/// The mathematical value of a `Cw721ExecuteMsg`.
pub enum Cw721ExecuteMsgView {
    Burn { token_id: Seq<char> },
}

impl View for Cw721ExecuteMsg {
    type V = Cw721ExecuteMsgView;

    open spec fn view(&self) -> Cw721ExecuteMsgView {
        match self {
            Cw721ExecuteMsg::Burn { token_id } => Cw721ExecuteMsgView::Burn { token_id: token_id@ },
        }
    }
}

/// A payload that the sale contract executes another contract with.
#[derive(Clone, Debug, PartialEq)]
pub enum Payload {
    Deposit(FundDepositMsg),
    SecureMint(SecureMintMsg),
    Burn(Cw721ExecuteMsg),
}

/// The mathematical value of a `Payload`.
pub enum PayloadView {
    Deposit(FundDepositMsg),
    SecureMint(SecureMintMsgView),
    Burn(Cw721ExecuteMsgView),
}

impl View for Payload {
    type V = PayloadView;

    open spec fn view(&self) -> PayloadView {
        match self {
            Payload::Deposit(msg) => PayloadView::Deposit(*msg),
            Payload::SecureMint(msg) => PayloadView::SecureMint(msg@),
            Payload::Burn(msg) => PayloadView::Burn(msg@),
        }
    }
}

#[derive(Clone, Copy, Debug, PartialEq, Eq, Structural)]
pub enum QueryMsg {
    Config {  },
    Winners {  },
    RoundInfo {  },
    DegenInfo {  },
}

#[derive(Clone, Debug, PartialEq)]
pub struct ConfigResponse {
    pub config: Config,
}

#[derive(Clone, Debug, PartialEq)]
pub struct WinnersResponse {
    pub winner: Option<WinnerInfo>,
}

#[derive(Clone, Debug, PartialEq)]
pub struct RoundInfoResponse {
    pub round: Option<RoundInfo>,
}

/// The wallets of the participation ledger, each once, in no order that the
/// ledger prescribes.
#[derive(Clone, Debug, PartialEq)]
pub struct DegenInfoResponse {
    pub wallets: Vec<String>,
}

/// The answer to a query.
#[derive(Clone, Debug, PartialEq)]
pub enum QueryResponse {
    Config(ConfigResponse),
    Winners(WinnersResponse),
    RoundInfo(RoundInfoResponse),
    DegenInfo(DegenInfoResponse),
}

/// The mathematical value of a `QueryResponse`.
pub enum QueryResponseView {
    Config(ConfigView),
    Winners(Option<WinnerInfoView>),
    RoundInfo(Option<RoundInfoView>),
    /// The wallets of the ledger; the order of the answer is no part of it.
    DegenInfo(Set<Seq<char>>),
}

impl View for QueryResponse {
    type V = QueryResponseView;

    open spec fn view(&self) -> QueryResponseView {
        match self {
            QueryResponse::Config(response) => QueryResponseView::Config(response.config@),
            QueryResponse::Winners(response) => QueryResponseView::Winners(
                response.winner.deep_view(),
            ),
            QueryResponse::RoundInfo(response) => QueryResponseView::RoundInfo(
                response.round.deep_view(),
            ),
            QueryResponse::DegenInfo(response) => QueryResponseView::DegenInfo(
                response.wallets.deep_view().to_set(),
            ),
        }
    }
}

} // verus!
