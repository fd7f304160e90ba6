//! What holds of every run of the distributer: nobody is paid twice for the
//! same deposits, baselines only rise and stay within the pool, and under a
//! share table of at most 10,000 basis points all that is ever paid out stays
//! within what was deposited.

use vstd::prelude::*;
use crate::distributer::contract::{
    claim_step, claimable, deposit_step, execute_step, initial_state, share_of, Answer,
};
use crate::distributer::msg::ExecuteMsgView;
use crate::distributer::state::{baseline, Baselines, ConfigView, FundShareView, StateView};
use crate::errors::ContractError;
use crate::host::{CoinView, CosmosMsgView, MessageInfoView};
use crate::share::{
    lemma_allocate_monotone, lemma_allocate_superadditive, lemma_allocate_within,
    lemma_allocate_zero,
    lemma_portions_within, portions, total_basis_points,
};

verus! {

/// A request together with its caller and funds.
pub type Call = (MessageInfoView, ExecuteMsgView);

/// The state after a sequence of calls, made one after the other.
pub open spec fn run(s: StateView, calls: Seq<Call>) -> StateView
    decreases calls.len(),
{
    if calls.len() == 0 {
        s
    } else {
        run(execute_step(s, calls[0].0, calls[0].1).0, calls.drop_first())
    }
}

/// What an answer transfers to wallets, before the network fee.
pub open spec fn transferred(answer: Answer) -> nat {
    match answer {
        Ok(response) => transfers(response.messages),
        Err(_) => 0,
    }
}

/// The sum of the transfers among these messages.
pub open spec fn transfers(messages: Seq<CosmosMsgView<()>>) -> nat
    decreases messages.len(),
{
    if messages.len() == 0 {
        0
    } else {
        transfers(messages.drop_last()) + match messages.last() {
            CosmosMsgView::Send { amount, .. } => amount.amount as nat,
            CosmosMsgView::Execute { .. } => 0,
        }
    }
}

/// All that a sequence of calls pays out.
pub open spec fn paid_out(s: StateView, calls: Seq<Call>) -> nat
    decreases calls.len(),
{
    if calls.len() == 0 {
        0
    } else {
        let (next, answer) = execute_step(s, calls[0].0, calls[0].1);
        transferred(answer) + paid_out(next, calls.drop_first())
    }
}

/// No call changes the configuration.
pub open spec fn keeps_config(calls: Seq<Call>) -> bool {
    forall|i: int| 0 <= i < calls.len() ==> !(#[trigger] calls[i].1 is ConfigUpdate)
}

/// What the lines of a share table have been entitled to so far: each
/// line's portion of its wallet's baseline, added up.
pub open spec fn entitled(shares: Seq<FundShareView>, baselines: Baselines) -> nat
    decreases shares.len(),
{
    if shares.len() == 0 {
        0
    } else {
        shares[0].portion(baseline(baselines, shares[0].address) as nat) + entitled(
            shares.drop_first(),
            baselines,
        )
    }
}

/// A wallet that has just claimed has nothing more to claim until the next
/// deposit, and claiming again pays it nothing.
pub proof fn lemma_claim_idempotent(s: StateView, wallet: Seq<char>)
    requires
        claim_step(s, wallet).1 is Ok,
    ensures
        claimable(claim_step(s, wallet).0, wallet) == Ok::<u128, ContractError>(0),
        transferred(claim_step(claim_step(s, wallet).0, wallet).1) == 0,
{
    let after = claim_step(s, wallet).0;
    let share = share_of(s.config.shares, wallet)->0;
    lemma_allocate_zero(0, share.share as nat);
    let again = claim_step(after, wallet).1;
    let messages = again->Ok_0.messages;
    assert(transfers(messages.drop_last()) == 0);
}

/// A claim that is owed succeeds. Where the caller has a line in the share
/// table, its baseline lies within the pool and its portion fits in 128
/// bits, as it does for every line of at most 10,000 basis points, the claim
/// pays that portion, raises the caller's baseline to the pool size and
/// leaves every other baseline and the pool as they are.
pub proof fn lemma_claim_settles(s: StateView, wallet: Seq<char>)
    requires
        share_of(s.config.shares, wallet) is Some,
        s.last_settled(wallet) <= s.fund_state,
        share_of(s.config.shares, wallet)->0.share <= 10000 || share_of(
            s.config.shares,
            wallet,
        )->0.portion((s.fund_state - s.last_settled(wallet)) as nat) <= u128::MAX,
    ensures
        claim_step(s, wallet).1 is Ok,
        transferred(claim_step(s, wallet).1) == share_of(s.config.shares, wallet)->0.portion(
            (s.fund_state - s.last_settled(wallet)) as nat,
        ),
        claim_step(s, wallet).0.last_settled(wallet) == s.fund_state,
        claim_step(s, wallet).0.last_settled(wallet) >= s.last_settled(wallet),
        forall|other: Seq<char>|
            other != wallet ==> #[trigger] claim_step(s, wallet).0.last_settled(other)
                == s.last_settled(other),
        claim_step(s, wallet).0.fund_state == s.fund_state,
        claim_step(s, wallet).0.config == s.config,
        s.settled_within_pool() ==> claim_step(s, wallet).0.settled_within_pool(),
{
    let share = share_of(s.config.shares, wallet)->0;
    let owed = (s.fund_state - s.last_settled(wallet)) as nat;
    if share.share <= 10000 {
        lemma_allocate_within(owed, share.share as nat);
    }
    let answer = claim_step(s, wallet).1;
    assert(answer is Ok);
    assert(transfers(answer->Ok_0.messages.drop_last()) == 0);
    let after = claim_step(s, wallet).0;
    if s.settled_within_pool() {
        assert forall|other: Seq<char>| #[trigger]
            baseline(after.claim_state, other) <= after.fund_state by {
            assert(baseline(s.claim_state, other) <= s.fund_state);
        }
    }
}

/// A deposit that is owed succeeds. Where the first coin is of the accepted
/// denomination and more than nothing, and the pool stays within 128 bits,
/// the pool grows by the coin's amount and nothing else changes.
pub proof fn lemma_deposit_adds(s: StateView, funds: Seq<CoinView>)
    requires
        funds.len() > 0,
        funds[0].denom == "uusd"@,
        funds[0].amount > 0,
        s.fund_state + funds[0].amount <= u128::MAX,
    ensures
        deposit_step(s, funds).1 is Ok,
        deposit_step(s, funds).0.fund_state == s.fund_state + funds[0].amount,
        deposit_step(s, funds).0.claim_state == s.claim_state,
        deposit_step(s, funds).0.config == s.config,
        transferred(deposit_step(s, funds).1) == 0,
{
    assert(deposit_step(s, funds).1->Ok_0.messages =~= Seq::empty());
}

/// No call lowers a baseline or the pool, and where no baseline lay beyond
/// the pool before a call, none does after it.
pub proof fn lemma_baselines_rise(s: StateView, info: MessageInfoView, msg: ExecuteMsgView)
    ensures
        execute_step(s, info, msg).0.fund_state >= s.fund_state,
        forall|wallet: Seq<char>|
            #[trigger] execute_step(s, info, msg).0.last_settled(wallet) >= s.last_settled(
                wallet,
            ),
        s.settled_within_pool() ==> execute_step(s, info, msg).0.settled_within_pool(),
{
    let after = execute_step(s, info, msg).0;
    if s.settled_within_pool() {
        assert forall|wallet: Seq<char>| #[trigger]
            baseline(after.claim_state, wallet) <= after.fund_state by {
            assert(baseline(s.claim_state, wallet) <= s.fund_state);
        }
    }
}

/// From the start of a contract on, whatever is asked of it, no baseline
/// lies beyond the pool.
pub proof fn lemma_settled_within_pool(config: ConfigView, calls: Seq<Call>)
    ensures
        run(initial_state(config), calls).settled_within_pool(),
{
    let start = initial_state(config);
    lemma_run_keeps_settled_within_pool(start, calls);
}

proof fn lemma_run_keeps_settled_within_pool(s: StateView, calls: Seq<Call>)
    requires
        s.settled_within_pool(),
    ensures
        run(s, calls).settled_within_pool(),
    decreases calls.len(),
{
    if calls.len() > 0 {
        lemma_baselines_rise(s, calls[0].0, calls[0].1);
        lemma_run_keeps_settled_within_pool(
            execute_step(s, calls[0].0, calls[0].1).0,
            calls.drop_first(),
        );
    }
}

/// Share conservation. Start a contract under a share table of at most
/// 10,000 basis points and make any sequence of deposits and claims: all
/// that the claims pay out, before fees, is no more than all that was
/// deposited.
pub proof fn lemma_share_conservation(config: ConfigView, calls: Seq<Call>)
    requires
        total_basis_points(config.shares) <= 10000,
        keeps_config(calls),
    ensures
        paid_out(initial_state(config), calls) <= run(initial_state(config), calls).fund_state,
{
    let start = initial_state(config);
    lemma_run_within_entitlement(start, calls, 0);
    let end = run(start, calls);
    lemma_entitled_within_pool(config.shares, end.claim_state, end.fund_state as nat);
    lemma_portions_within(config.shares, end.fund_state as nat);
}

/// A claim raises what the share table has been entitled to by at least
/// what it pays.
proof fn lemma_claim_within_entitlement(
    shares: Seq<FundShareView>,
    baselines: Baselines,
    wallet: Seq<char>,
    pool: u128,
)
    requires
        baseline(baselines, wallet) <= pool,
    ensures
        entitled(shares, baselines.insert(wallet, pool)) >= entitled(shares, baselines) + (
        match share_of(shares, wallet) {
            Some(share) => share.portion((pool - baseline(baselines, wallet)) as nat),
            None => 0,
        }),
    decreases shares.len(),
{
    if shares.len() > 0 {
        let first = shares[0];
        let rest = shares.drop_first();
        let before = baseline(baselines, wallet) as nat;
        if first.address == wallet {
            lemma_entitled_monotone(rest, baselines, wallet, pool);
            lemma_allocate_superadditive(before, (pool - before) as nat, first.share as nat);
        } else {
            lemma_claim_within_entitlement(rest, baselines, wallet, pool);
        }
    }
}

/// Raising a baseline lowers no entitlement.
proof fn lemma_entitled_monotone(
    shares: Seq<FundShareView>,
    baselines: Baselines,
    wallet: Seq<char>,
    pool: u128,
)
    requires
        baseline(baselines, wallet) <= pool,
    ensures
        entitled(shares, baselines.insert(wallet, pool)) >= entitled(shares, baselines),
    decreases shares.len(),
{
    if shares.len() > 0 {
        let first = shares[0];
        lemma_entitled_monotone(shares.drop_first(), baselines, wallet, pool);
        if first.address == wallet {
            lemma_allocate_monotone(
                baseline(baselines, wallet) as nat,
                pool as nat,
                first.share as nat,
            );
        }
    }
}

/// While no baseline lies beyond the pool, the share table has been entitled
/// to no more than its portions of the pool.
proof fn lemma_entitled_within_pool(shares: Seq<FundShareView>, baselines: Baselines, pool: nat)
    requires
        forall|wallet: Seq<char>| #[trigger] baseline(baselines, wallet) <= pool,
    ensures
        entitled(shares, baselines) <= portions(shares, pool),
    decreases shares.len(),
{
    if shares.len() > 0 {
        let first = shares[0];
        lemma_allocate_monotone(baseline(baselines, first.address) as nat, pool, first.share as nat);
        lemma_entitled_within_pool(shares.drop_first(), baselines, pool);
    }
}

/// Along a run that keeps the configuration, what has been paid out stays
/// within what the share table has been entitled to.
proof fn lemma_run_within_entitlement(s: StateView, calls: Seq<Call>, paid: nat)
    requires
        s.settled_within_pool(),
        keeps_config(calls),
        paid <= entitled(s.config.shares, s.claim_state),
    ensures
        run(s, calls).config == s.config,
        run(s, calls).settled_within_pool(),
        paid + paid_out(s, calls) <= entitled(s.config.shares, run(s, calls).claim_state),
    decreases calls.len(),
{
    if calls.len() > 0 {
        let (info, msg) = calls[0];
        let (next, answer) = execute_step(s, info, msg);
        let rest = calls.drop_first();
        lemma_baselines_rise(s, info, msg);
        if msg is Claim && answer is Ok {
            lemma_claim_within_entitlement(
                s.config.shares,
                s.claim_state,
                info.sender,
                s.fund_state,
            );
            assert(transfers(answer->Ok_0.messages.drop_last()) == 0);
        }
        lemma_run_within_entitlement(next, rest, paid + transferred(answer));
    }
}

} // verus!
