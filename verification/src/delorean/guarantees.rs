//! What holds of every state of the sale contract: the prize deadline is
//! exclusive, a prize is paid once, only the administrator records winners
//! and rounds, and a round update leaves the sub-pool counter at zero and
//! the participation ledger empty.

use vstd::prelude::*;
use crate::delorean::contract::{
    claim_prize_step, degen_burn_step, deposits_fit, pool_of, refused, round_deposits,
    round_update_step, share_deposits, winners_update_step, Msg,
};
use crate::delorean::state::{
    FundShareView, NftMetaInfoView, RoundInfoView, StateView, WinnerInfoView,
};
use crate::errors::ContractError;
use crate::host::{CoinView, CosmosMsgView, EnvView};
use crate::share::{
    lemma_allocate_within, lemma_portions_within, portions, total_basis_points,
};

verus! {

/// The winner boundary. The winner of an unclaimed prize is refused at the
/// second of the deadline and paid one second before it.
pub proof fn lemma_winner_boundary(
    s: StateView,
    at_deadline: EnvView,
    before_deadline: EnvView,
    burn_nft_id: Seq<char>,
)
    requires
        s.winner_info is Some,
        !s.winner_info->0.claimed,
        at_deadline.seconds() == s.winner_info->0.claim_end_time,
        before_deadline.seconds() == s.winner_info->0.claim_end_time - 1,
    ensures
        claim_prize_step(s, at_deadline, s.winner_info->0.winner_address, burn_nft_id).1 == refused(ContractError::Unauthorized),
        claim_prize_step(s, at_deadline, s.winner_info->0.winner_address, burn_nft_id).0 == s,
        claim_prize_step(
            s,
            before_deadline,
            s.winner_info->0.winner_address,
            burn_nft_id,
        ).1 is Ok,
        claim_prize_step(
            s,
            before_deadline,
            s.winner_info->0.winner_address,
            burn_nft_id,
        ).0.winner_info->0.claimed,
{
}

/// A prize is paid once: after a claim that succeeded, every further claim
/// of the same record is refused, whoever makes it and whenever.
pub proof fn lemma_prize_paid_once(
    s: StateView,
    env: EnvView,
    sender: Seq<char>,
    burn_nft_id: Seq<char>,
    later: EnvView,
    anyone: Seq<char>,
    another_id: Seq<char>,
)
    requires
        claim_prize_step(s, env, sender, burn_nft_id).1 is Ok,
    ensures
        claim_prize_step(
            claim_prize_step(s, env, sender, burn_nft_id).0,
            later,
            anyone,
            another_id,
        ).1 == refused(ContractError::Unauthorized),
{
}

/// Only the winner is paid: a claim by any other wallet is refused and
/// changes nothing.
pub proof fn lemma_prize_for_winner_only(
    s: StateView,
    env: EnvView,
    sender: Seq<char>,
    burn_nft_id: Seq<char>,
)
    requires
        s.winner_info is Some,
        sender != s.winner_info->0.winner_address,
    ensures
        claim_prize_step(s, env, sender, burn_nft_id) == (
            s,
            refused(ContractError::Unauthorized),
        ),
{
}

/// Only the administrator records a winner; its record takes the place of
/// any earlier one.
pub proof fn lemma_winner_set_by_admin(s: StateView, sender: Seq<char>, winner: WinnerInfoView)
    ensures
        sender != s.config.admin ==> winners_update_step(s, sender, winner) == (
            s,
            refused(ContractError::Unauthorized),
        ),
        sender == s.config.admin ==> winners_update_step(s, sender, winner).1 is Ok
            && winners_update_step(s, sender, winner).0.winner_info == Some(winner),
{
}

/// The round reset. After a round update that succeeded, the sub-pool
/// counter is zero and the participation ledger empty, whatever they held.
pub proof fn lemma_round_reset(s: StateView, env: EnvView, sender: Seq<char>, round: RoundInfoView)
    requires
        round_update_step(s, env, sender, round).1 is Ok,
    ensures
        round_update_step(s, env, sender, round).0.nft2_funds == 0,
        round_update_step(s, env, sender, round).0.degen_info == Set::<Seq<char>>::empty(),
        round_update_step(s, env, sender, round).0.round_info == Some(round),
{
}

/// A round update that is owed succeeds. Where the administrator asks for
/// it, the sub-pool lies within the balance and every portion fits in 128
/// bits, the update records the round, pays the deposits of both pools, and
/// leaves the sub-pool counter at zero and the participation ledger empty,
/// whatever they held.
pub proof fn lemma_round_update_succeeds(s: StateView, env: EnvView, round: RoundInfoView)
    requires
        s.nft2_funds <= env.balance.amount,
        deposits_fit(s.config.nfts, (env.balance.amount - s.nft2_funds) as u128, s.nft2_funds),
    ensures
        round_update_step(s, env, s.config.admin, round).1 is Ok,
        round_update_step(s, env, s.config.admin, round).1->Ok_0.messages == round_deposits(
            s.config.nfts,
            (env.balance.amount - s.nft2_funds) as u128,
            s.nft2_funds,
            env.balance.denom,
        ),
        round_update_step(s, env, s.config.admin, round).0.nft2_funds == 0,
        round_update_step(s, env, s.config.admin, round).0.degen_info == Set::<
            Seq<char>,
        >::empty(),
        round_update_step(s, env, s.config.admin, round).0.round_info == Some(round),
        round_update_step(s, env, s.config.admin, round).0.config == s.config,
        round_update_step(s, env, s.config.admin, round).0.winner_info == s.winner_info,
{
}

/// Share tables whose lines have at most 10,000 basis points each never
/// leave the range of 128 bits: every portion of a round update fits.
pub proof fn lemma_modest_shares_fit(nfts: Seq<NftMetaInfoView>, main_pool: u128, sub_pool: u128)
    requires
        forall|i: int, j: int|
            #![trigger nfts[i].shares[j]]
            0 <= i < nfts.len() && 0 <= j < nfts[i].shares.len() ==> nfts[i].shares[j].share
                <= 10000,
    ensures
        deposits_fit(nfts, main_pool, sub_pool),
{
    assert forall|i: int, j: int|
        #![trigger nfts[i].shares[j]]
        0 <= i < nfts.len() && 0 <= j < nfts[i].shares.len() implies nfts[i].shares[j].portion(
        pool_of(i, main_pool, sub_pool) as nat,
    ) <= u128::MAX by {
        lemma_allocate_within(
            pool_of(i, main_pool, sub_pool) as nat,
            nfts[i].shares[j].share as nat,
        );
    }
}

/// The amounts of these coins, added up.
pub open spec fn total(coins: Seq<CoinView>) -> nat
    decreases coins.len(),
{
    if coins.len() == 0 {
        0
    } else {
        coins[0].amount as nat + total(coins.drop_first())
    }
}

/// What these messages carry away, before the network fee.
pub open spec fn carried(messages: Seq<Msg>) -> nat
    decreases messages.len(),
{
    if messages.len() == 0 {
        0
    } else {
        carried(messages.drop_first()) + match messages[0] {
            CosmosMsgView::Send { amount, .. } => amount.amount as nat,
            CosmosMsgView::Execute { funds, .. } => total(funds),
        }
    }
}

/// A round update pays out no more than the balance. Where there are at
/// most two products and neither share table has more than 10,000 basis
/// points, the deposits of a round update that succeeded carry, before
/// fees, no more than the balance that the update found.
pub proof fn lemma_round_within_balance(
    s: StateView,
    env: EnvView,
    sender: Seq<char>,
    round: RoundInfoView,
)
    requires
        s.config.nfts.len() <= 2,
        forall|i: int|
            0 <= i < s.config.nfts.len() ==> total_basis_points(
                (#[trigger] s.config.nfts[i]).shares,
            ) <= 10000,
        round_update_step(s, env, sender, round).1 is Ok,
    ensures
        carried(round_update_step(s, env, sender, round).1->Ok_0.messages) <= env.balance.amount,
{
    let nfts = s.config.nfts;
    let sub_pool = s.nft2_funds;
    let main_pool = (env.balance.amount - sub_pool) as u128;
    let denom = env.balance.denom;
    let none = round_deposits(nfts.subrange(0, 0), main_pool, sub_pool, denom);
    assert(none =~= Seq::empty());
    if nfts.len() >= 1 {
        let first = share_deposits(nfts[0].shares, main_pool, denom);
        let one = round_deposits(nfts.subrange(0, 1), main_pool, sub_pool, denom);
        assert(nfts.subrange(0, 1).drop_last() =~= nfts.subrange(0, 0));
        assert(one =~= first);
        assert(nfts[0].shares.subrange(0, nfts[0].shares.len() as int) =~= nfts[0].shares);
        lemma_share_deposits_carry(nfts[0].shares, main_pool, denom);
        lemma_portions_within(nfts[0].shares, main_pool as nat);
        if nfts.len() == 2 {
            let second = share_deposits(nfts[1].shares, sub_pool, denom);
            assert(nfts.drop_last() =~= nfts.subrange(0, 1));
            lemma_carried_together(first, second);
            lemma_share_deposits_carry(nfts[1].shares, sub_pool, denom);
            lemma_portions_within(nfts[1].shares, sub_pool as nat);
        } else {
            assert(nfts.subrange(0, 1) =~= nfts);
        }
    } else {
        assert(nfts.subrange(0, 0) =~= nfts);
    }
}

/// The deposits of a share table carry the table's portions of the pool,
/// where each portion fits in 128 bits.
proof fn lemma_share_deposits_carry(shares: Seq<FundShareView>, pool: u128, denom: Seq<char>)
    requires
        forall|j: int|
            0 <= j < shares.len() ==> (#[trigger] shares[j]).portion(pool as nat) <= u128::MAX,
    ensures
        carried(share_deposits(shares, pool, denom)) == portions(shares, pool as nat),
    decreases shares.len(),
{
    if shares.len() > 0 {
        let rest = shares.drop_first();
        assert forall|j: int| 0 <= j < rest.len() implies (#[trigger] rest[j]).portion(
            pool as nat,
        ) <= u128::MAX by {
            assert(rest[j] == shares[j + 1]);
        }
        lemma_share_deposits_carry(rest, pool, denom);
        let deposits = share_deposits(shares, pool, denom);
        assert(deposits.drop_first() =~= share_deposits(rest, pool, denom));
        let funds = deposits[0]->Execute_funds;
        assert(funds.drop_first() =~= Seq::empty());
        assert(total(funds.drop_first()) == 0);
    }
}

/// What two runs of messages carry together is what each carries.
proof fn lemma_carried_together(front: Seq<Msg>, back: Seq<Msg>)
    ensures
        carried(front + back) == carried(front) + carried(back),
    decreases front.len(),
{
    if front.len() == 0 {
        assert(front + back =~= back);
    } else {
        assert((front + back).drop_first() =~= front.drop_first() + back);
        lemma_carried_together(front.drop_first(), back);
    }
}

/// The participation ledger only grows between round updates, and holds
/// whoever burned.
pub proof fn lemma_participant_recorded(s: StateView, sender: Seq<char>, burn_nft_id: Seq<char>)
    ensures
        degen_burn_step(s, sender, burn_nft_id).0.degen_info.contains(sender),
        s.degen_info.subset_of(degen_burn_step(s, sender, burn_nft_id).0.degen_info),
{
}

} // verus!
