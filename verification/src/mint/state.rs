//! The state of the minting contract.

use vstd::prelude::*;
use crate::host::{Coin, CoinView};
pub use crate::metadata::{Metadata, MetadataView, Trait, TraitView};
use crate::share::clone_shares;
pub use crate::share::{FundShare, FundShareView};

verus! {

/// Who administers the contract, who else may mint without paying, the
/// contract that holds the collection, what each token carries and costs,
/// who shares the price, and how many tokens there may be.
#[derive(Debug, PartialEq)]
pub struct Config {
    pub admin: String,
    pub minter: String,
    pub nft_contract: String,
    pub nft_metadata: Metadata,
    pub shares: Vec<FundShare>,
    pub price: Coin,
    pub mint_limit: u32,
}

/// The mathematical value of a `Config`.
pub struct ConfigView {
    pub admin: Seq<char>,
    pub minter: Seq<char>,
    pub nft_contract: Seq<char>,
    pub nft_metadata: MetadataView,
    pub shares: Seq<FundShareView>,
    pub price: CoinView,
    pub mint_limit: u32,
}

impl View for Config {
    type V = ConfigView;

    open spec fn view(&self) -> ConfigView {
        ConfigView {
            admin: self.admin@,
            minter: self.minter@,
            nft_contract: self.nft_contract@,
            nft_metadata: self.nft_metadata@,
            shares: self.shares.deep_view(),
            price: self.price@,
            mint_limit: self.mint_limit,
        }
    }
}

impl Clone for Config {
    fn clone(&self) -> (copy: Self)
        ensures
            copy@ == self@,
    {
        Config {
            admin: self.admin.clone(),
            minter: self.minter.clone(),
            nft_contract: self.nft_contract.clone(),
            nft_metadata: self.nft_metadata.clone(),
            shares: clone_shares(&self.shares),
            price: self.price.clone(),
            mint_limit: self.mint_limit,
        }
    }
}

/// How many tokens have been numbered.
#[derive(Clone, Copy, Debug, PartialEq, Eq, Structural)]
pub struct MintStatus {
    pub mint_count: u32,
}

/// The state of the minting contract.
#[derive(Clone, Debug, PartialEq)]
pub struct State {
    pub config: Config,
    pub mint_status: MintStatus,
}

/// The mathematical value of a `State`.
pub struct StateView {
    pub config: ConfigView,
    pub mint_status: MintStatus,
}

impl View for State {
    type V = StateView;

    open spec fn view(&self) -> StateView {
        StateView { config: self.config@, mint_status: self.mint_status }
    }
}

} // verus!
