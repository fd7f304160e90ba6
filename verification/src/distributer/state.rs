//! The state of the distributer.

use vstd::prelude::*;
use crate::share::clone_shares;
pub use crate::share::{FundShare, FundShareView};

verus! {

/// Who administers the contract, and who is paid which share of the pool.
#[derive(Debug, PartialEq)]
pub struct Config {
    pub admin: String,
    pub shares: Vec<FundShare>,
}

/// The mathematical value of a `Config`.
pub struct ConfigView {
    pub admin: Seq<char>,
    pub shares: Seq<FundShareView>,
}

impl View for Config {
    type V = ConfigView;

    open spec fn view(&self) -> ConfigView {
        ConfigView { admin: self.admin@, shares: self.shares.deep_view() }
    }
}

impl Clone for Config {
    fn clone(&self) -> (copy: Self)
        ensures
            copy@ == self@,
    {
        Config { admin: self.admin.clone(), shares: clone_shares(&self.shares) }
    }
}

/// The mathematical value of the settled baselines: for each wallet that has
/// claimed, the pool size at its last claim.
pub type Baselines = Map<Seq<char>, u128>;

/// The baseline of `wallet`: zero before its first claim.
pub open spec fn baseline(baselines: Baselines, wallet: Seq<char>) -> u128 {
    if baselines.contains_key(wallet) {
        baselines[wallet]
    } else {
        0
    }
}

/// The map that a list of wallets and amounts stands for; of two lines for
/// one wallet the later one counts.
spec fn to_map(lines: Seq<(Seq<char>, u128)>) -> Baselines
    decreases lines.len(),
{
    if lines.len() == 0 {
        Map::empty()
    } else {
        to_map(lines.drop_last()).insert(lines.last().0, lines.last().1)
    }
}

/// No wallet has two lines.
spec fn distinct_wallets(lines: Seq<(Seq<char>, u128)>) -> bool {
    forall|i: int, j: int| 0 <= i < j < lines.len() ==> lines[i].0 != lines[j].0
}

proof fn lemma_to_map_domain(lines: Seq<(Seq<char>, u128)>, wallet: Seq<char>)
    ensures
        to_map(lines).contains_key(wallet) <==> exists|i: int|
            0 <= i < lines.len() && #[trigger] lines[i].0 == wallet,
    decreases lines.len(),
{
    if lines.len() > 0 {
        let front = lines.drop_last();
        lemma_to_map_domain(front, wallet);
        if to_map(lines).contains_key(wallet) && lines.last().0 != wallet {
            let i = choose|i: int| 0 <= i < front.len() && #[trigger] front[i].0 == wallet;
            assert(lines[i].0 == wallet);
        }
        if exists|i: int| 0 <= i < lines.len() && #[trigger] lines[i].0 == wallet {
            let i = choose|i: int| 0 <= i < lines.len() && #[trigger] lines[i].0 == wallet;
            if i < lines.len() - 1 {
                assert(front[i].0 == wallet);
            }
        }
    }
}

proof fn lemma_to_map_value(lines: Seq<(Seq<char>, u128)>, i: int)
    requires
        distinct_wallets(lines),
        0 <= i < lines.len(),
    ensures
        to_map(lines).contains_key(lines[i].0),
        to_map(lines)[lines[i].0] == lines[i].1,
    decreases lines.len(),
{
    if i < lines.len() - 1 {
        lemma_to_map_value(lines.drop_last(), i);
    }
}

proof fn lemma_to_map_update(lines: Seq<(Seq<char>, u128)>, i: int, amount: u128)
    requires
        distinct_wallets(lines),
        0 <= i < lines.len(),
    ensures
        distinct_wallets(lines.update(i, (lines[i].0, amount))),
        to_map(lines.update(i, (lines[i].0, amount))) == to_map(lines).insert(lines[i].0, amount),
    decreases lines.len(),
{
    let wallet = lines[i].0;
    let after = lines.update(i, (wallet, amount));
    let front = lines.drop_last();
    if i == lines.len() - 1 {
        assert(after.drop_last() =~= front);
    } else {
        lemma_to_map_update(front, i, amount);
        assert(after.drop_last() =~= front.update(i, (wallet, amount)));
    }
}

/// For each wallet that has claimed, the pool size at its last claim.
#[derive(Debug, PartialEq)]
pub struct ClaimState {
    lines: Vec<(String, u128)>,
}

impl View for ClaimState {
    type V = Baselines;

    closed spec fn view(&self) -> Baselines {
        to_map(self.lines.deep_view())
    }
}

impl ClaimState {
    #[verifier::type_invariant]
    spec fn well_formed(self) -> bool {
        distinct_wallets(self.lines.deep_view())
    }

    /// No wallet has claimed.
    pub fn new() -> (fresh: Self)
        ensures
            fresh@ == Map::<Seq<char>, u128>::empty(),
    {
        ClaimState { lines: Vec::new() }
    }

    /// The baseline recorded for `wallet`, if it has one.
    pub fn may_load(&self, wallet: &String) -> (found: Option<u128>)
        ensures
            found == if self@.contains_key(wallet@) {
                Some(self@[wallet@])
            } else {
                None::<u128>
            },
    {
        proof {
            use_type_invariant(self);
        }
        let ghost lines = self.lines.deep_view();
        let n = self.lines.len();
        for i in 0..n
            invariant
                n == self.lines.len(),
                lines == self.lines.deep_view(),
                distinct_wallets(lines),
                forall|j: int| 0 <= j < i ==> lines[j].0 != wallet@,
        {
            if self.lines[i].0 == *wallet {
                proof {
                    lemma_to_map_value(lines, i as int);
                }
                return Some(self.lines[i].1);
            }
        }
        proof {
            lemma_to_map_domain(lines, wallet@);
        }
        None
    }

    /// Records `settled` as the baseline of `wallet`, in place of any earlier
    /// one.
    pub fn save(&mut self, wallet: &String, settled: u128)
        ensures
            final(self)@ == old(self)@.insert(wallet@, settled),
    {
        proof {
            use_type_invariant(&*self);
        }
        let mut held: Vec<(String, u128)> = Vec::new();
        std::mem::swap(&mut self.lines, &mut held);
        let ghost lines = held.deep_view();
        let n = held.len();
        let mut at: usize = 0;
        while at < n && !(held[at].0 == *wallet)
            invariant
                n == held.len(),
                at <= n,
                lines == held.deep_view(),
                forall|j: int| 0 <= j < at ==> lines[j].0 != wallet@,
            decreases n - at,
        {
            at = at + 1;
        }
        if at < n {
            held.set(at, (wallet.clone(), settled));
            proof {
                lemma_to_map_update(lines, at as int, settled);
                assert(held.deep_view() =~= lines.update(at as int, (wallet@, settled)));
            }
        } else {
            held.push((wallet.clone(), settled));
            proof {
                let after = held.deep_view();
                assert(after =~= lines.push((wallet@, settled)));
                assert(after.drop_last() =~= lines);
            }
        }
        self.lines = held;
    }
}

impl Clone for ClaimState {
    fn clone(&self) -> (copy: Self)
        ensures
            copy@ == self@,
    {
        proof {
            use_type_invariant(self);
        }
        let mut lines: Vec<(String, u128)> = Vec::new();
        let n = self.lines.len();
        for i in 0..n
            invariant
                n == self.lines.len(),
                lines.len() == i,
                forall|j: int| 0 <= j < i ==> lines[j].0@ == self.lines[j].0@ && lines[j].1 == self.lines[j].1,
        {
            lines.push((self.lines[i].0.clone(), self.lines[i].1));
        }
        assert(lines.deep_view() =~= self.lines.deep_view());
        ClaimState { lines }
    }
}

/// The state of the distributer.
#[derive(Clone, Debug, PartialEq)]
pub struct State {
    pub config: Config,
    /// All that was ever deposited.
    pub fund_state: u128,
    pub claim_state: ClaimState,
}

/// The mathematical value of a `State`.
pub struct StateView {
    pub config: ConfigView,
    pub fund_state: u128,
    pub claim_state: Baselines,
}

impl View for State {
    type V = StateView;

    open spec fn view(&self) -> StateView {
        StateView {
            config: self.config@,
            fund_state: self.fund_state,
            claim_state: self.claim_state@,
        }
    }
}

impl StateView {
    /// The pool size up to which `wallet` has been paid: zero before its
    /// first claim.
    pub open spec fn last_settled(self, wallet: Seq<char>) -> u128 {
        baseline(self.claim_state, wallet)
    }

    /// No wallet has been paid beyond the pool.
    pub open spec fn settled_within_pool(self) -> bool {
        forall|wallet: Seq<char>| #[trigger] baseline(self.claim_state, wallet) <= self.fund_state
    }
}

} // verus!
