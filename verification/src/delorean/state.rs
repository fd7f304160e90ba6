//! The state of the sale contract.

use vstd::prelude::*;
use crate::host::{Coin, CoinView};
pub use crate::metadata::{Metadata, MetadataView, Trait, TraitView};
use crate::share::clone_shares;
pub use crate::share::{FundShare, FundShareView};

verus! {

/// A product: its description, its price and the share table of its
/// proceeds.
#[derive(Debug, PartialEq)]
pub struct NftMetaInfo {
    pub nft_metadata: Metadata,
    pub price: Coin,
    pub shares: Vec<FundShare>,
}

/// The mathematical value of an `NftMetaInfo`.
pub struct NftMetaInfoView {
    pub nft_metadata: MetadataView,
    pub price: CoinView,
    pub shares: Seq<FundShareView>,
}

impl View for NftMetaInfo {
    type V = NftMetaInfoView;

    open spec fn view(&self) -> NftMetaInfoView {
        NftMetaInfoView {
            nft_metadata: self.nft_metadata@,
            price: self.price@,
            shares: self.shares.deep_view(),
        }
    }
}

impl DeepView for NftMetaInfo {
    type V = NftMetaInfoView;

    open spec fn deep_view(&self) -> NftMetaInfoView {
        self@
    }
}

impl Clone for NftMetaInfo {
    fn clone(&self) -> (copy: Self)
        ensures
            copy@ == self@,
    {
        NftMetaInfo {
            nft_metadata: self.nft_metadata.clone(),
            price: self.price.clone(),
            shares: clone_shares(&self.shares),
        }
    }
}

/// Who administers the contract, the contracts that mint and hold the
/// collectibles, and the products. The first product's proceeds are the main
/// pool; those of the second are set apart in the sub-pool.
#[derive(Debug, PartialEq)]
pub struct Config {
    pub admin: String,
    pub mint_contract: String,
    pub nft_contract: String,
    pub nfts: Vec<NftMetaInfo>,
}

/// The mathematical value of a `Config`.
pub struct ConfigView {
    pub admin: Seq<char>,
    pub mint_contract: Seq<char>,
    pub nft_contract: Seq<char>,
    pub nfts: Seq<NftMetaInfoView>,
}

impl View for Config {
    type V = ConfigView;

    open spec fn view(&self) -> ConfigView {
        ConfigView {
            admin: self.admin@,
            mint_contract: self.mint_contract@,
            nft_contract: self.nft_contract@,
            nfts: self.nfts.deep_view(),
        }
    }
}

impl Clone for Config {
    fn clone(&self) -> (copy: Self)
        ensures
            copy@ == self@,
    {
        let mut nfts: Vec<NftMetaInfo> = Vec::new();
        let n = self.nfts.len();
        for i in 0..n
            invariant
                n == self.nfts.len(),
                nfts.len() == i,
                forall|j: int| 0 <= j < i ==> nfts[j]@ == self.nfts[j]@,
        {
            nfts.push(self.nfts[i].clone());
        }
        assert(nfts.deep_view() =~= self.nfts.deep_view());
        Config {
            admin: self.admin.clone(),
            mint_contract: self.mint_contract.clone(),
            nft_contract: self.nft_contract.clone(),
            nfts,
        }
    }
}

/// The description of the current round.
#[derive(Debug, PartialEq)]
pub struct RoundInfo {
    pub active: bool,
    pub start_date: u64,
    pub end_date: u64,
    pub name: String,
}

/// The mathematical value of a `RoundInfo`.
pub struct RoundInfoView {
    pub active: bool,
    pub start_date: u64,
    pub end_date: u64,
    pub name: Seq<char>,
}

impl View for RoundInfo {
    type V = RoundInfoView;

    open spec fn view(&self) -> RoundInfoView {
        RoundInfoView {
            active: self.active,
            start_date: self.start_date,
            end_date: self.end_date,
            name: self.name@,
        }
    }
}

impl DeepView for RoundInfo {
    type V = RoundInfoView;

    open spec fn deep_view(&self) -> RoundInfoView {
        self@
    }
}

impl Clone for RoundInfo {
    fn clone(&self) -> (copy: Self)
        ensures
            copy@ == self@,
    {
        RoundInfo {
            active: self.active,
            start_date: self.start_date,
            end_date: self.end_date,
            name: self.name.clone(),
        }
    }
}

/// The prize record: who won, how much, until when it may be claimed (in
/// seconds since the epoch), and whether it has been.
#[derive(Debug, PartialEq)]
pub struct WinnerInfo {
    pub winner_address: String,
    pub winner_amount: Coin,
    pub claim_end_time: u64,
    pub claimed: bool,
}

/// The mathematical value of a `WinnerInfo`.
pub struct WinnerInfoView {
    pub winner_address: Seq<char>,
    pub winner_amount: CoinView,
    pub claim_end_time: u64,
    pub claimed: bool,
}

impl View for WinnerInfo {
    type V = WinnerInfoView;

    open spec fn view(&self) -> WinnerInfoView {
        WinnerInfoView {
            winner_address: self.winner_address@,
            winner_amount: self.winner_amount@,
            claim_end_time: self.claim_end_time,
            claimed: self.claimed,
        }
    }
}

impl DeepView for WinnerInfo {
    type V = WinnerInfoView;

    open spec fn deep_view(&self) -> WinnerInfoView {
        self@
    }
}

impl Clone for WinnerInfo {
    fn clone(&self) -> (copy: Self)
        ensures
            copy@ == self@,
    {
        WinnerInfo {
            winner_address: self.winner_address.clone(),
            winner_amount: self.winner_amount.clone(),
            claim_end_time: self.claim_end_time,
            claimed: self.claimed,
        }
    }
}

/// The participation ledger of the current round: the set of the wallets
/// that burned a collectible.
#[derive(Debug, PartialEq)]
pub struct DegenInfo {
    wallets: Vec<String>,
}

impl View for DegenInfo {
    type V = Set<Seq<char>>;

    closed spec fn view(&self) -> Set<Seq<char>> {
        self.wallets.deep_view().to_set()
    }
}

impl DegenInfo {
    #[verifier::type_invariant]
    spec fn well_formed(self) -> bool {
        self.wallets.deep_view().no_duplicates()
    }

    /// The empty ledger.
    pub fn new() -> (fresh: Self)
        ensures
            fresh@ == Set::<Seq<char>>::empty(),
    {
        let fresh = DegenInfo { wallets: Vec::new() };
        assert(fresh@ =~= Set::empty());
        fresh
    }

    /// Whether `wallet` is recorded.
    pub fn contains(&self, wallet: &String) -> (found: bool)
        ensures
            found == self@.contains(wallet@),
    {
        let ghost all = self.wallets.deep_view();
        let n = self.wallets.len();
        for i in 0..n
            invariant
                n == self.wallets.len(),
                all == self.wallets.deep_view(),
                forall|j: int| 0 <= j < i ==> all[j] != wallet@,
        {
            if self.wallets[i] == *wallet {
                assert(all[i as int] == wallet@);
                return true;
            }
        }
        false
    }

    /// Records `wallet`, unless it is recorded already.
    pub fn save(&mut self, wallet: &String)
        ensures
            final(self)@ == old(self)@.insert(wallet@),
    {
        proof {
            use_type_invariant(&*self);
        }
        if !self.contains(wallet) {
            let mut held: Vec<String> = Vec::new();
            std::mem::swap(&mut self.wallets, &mut held);
            let ghost before = held.deep_view();
            held.push(wallet.clone());
            assert(held.deep_view() =~= before.push(wallet@));
            self.wallets = held;
            proof {
                before.lemma_push_to_set_commute(wallet@);
            }
        } else {
            assert(self@ =~= self@.insert(wallet@));
        }
    }

    /// Removes every wallet.
    pub fn clear(&mut self)
        ensures
            final(self)@ == Set::<Seq<char>>::empty(),
    {
        let fresh: Vec<String> = Vec::new();
        self.wallets = fresh;
        assert(self@ =~= Set::empty());
    }

    /// The recorded wallets, each once. Their order is no part of the
    /// ledger: it is for the caller to choose one.
    pub fn wallets(&self) -> (list: Vec<String>)
        ensures
            list.deep_view().no_duplicates(),
            list.deep_view().to_set() == self@,
    {
        proof {
            use_type_invariant(self);
        }
        let mut list: Vec<String> = Vec::new();
        let n = self.wallets.len();
        for i in 0..n
            invariant
                n == self.wallets.len(),
                list.len() == i,
                forall|j: int| 0 <= j < i ==> list[j]@ == self.wallets[j]@,
        {
            list.push(self.wallets[i].clone());
        }
        assert(list.deep_view() =~= self.wallets.deep_view());
        list
    }
}

impl Clone for DegenInfo {
    fn clone(&self) -> (copy: Self)
        ensures
            copy@ == self@,
    {
        let wallets = self.wallets();
        DegenInfo { wallets }
    }
}

/// The state of the sale contract.
#[derive(Clone, Debug, PartialEq)]
pub struct State {
    pub config: Config,
    /// The proceeds of the second product since the last round update.
    pub nft2_funds: u128,
    pub round_info: Option<RoundInfo>,
    pub winner_info: Option<WinnerInfo>,
    pub degen_info: DegenInfo,
}

/// The mathematical value of a `State`.
pub struct StateView {
    pub config: ConfigView,
    pub nft2_funds: u128,
    pub round_info: Option<RoundInfoView>,
    pub winner_info: Option<WinnerInfoView>,
    pub degen_info: Set<Seq<char>>,
}

impl View for State {
    type V = StateView;

    open spec fn view(&self) -> StateView {
        StateView {
            config: self.config@,
            nft2_funds: self.nft2_funds,
            round_info: self.round_info.deep_view(),
            winner_info: self.winner_info.deep_view(),
            degen_info: self.degen_info@,
        }
    }
}

} // verus!
