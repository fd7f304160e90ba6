//! The operations of the distributer. Each is a transition from the state
//! and the request to the next state and the answer; what it does is given
//! by a function on the mathematical values of these.

use vstd::prelude::*;
use crate::auth::require_admin;
use crate::decimal::{decimal, to_decimal};
use crate::distributer::msg::{
    ClaimStatusResponse, ConfigResponse, ExecuteMsg, ExecuteMsgView, InstantiateMsg, MigrateMsg,
    QueryMsg, QueryMsgView, QueryResponse, QueryResponseView,
};
use crate::distributer::state::{
    ClaimState, Config, ConfigView, FundShare, FundShareView, State, StateView,
};
use crate::errors::ContractError;
use crate::host::{
    attr, coin, outcome, same_text, Coin, CoinView, CosmosMsg, CosmosMsgView, Env, MessageInfo,
    MessageInfoView, Response, ResponseView,
};

verus! {

/// An answer of the distributer, which never executes another contract.
pub type Answer = Result<ResponseView<()>, ContractError>;

/// The answer without messages or attributes.
pub open spec fn nothing() -> ResponseView<()> {
    ResponseView { messages: Seq::empty(), attributes: Seq::empty() }
}

/// The first line of the share table that names `wallet`.
pub open spec fn share_of(shares: Seq<FundShareView>, wallet: Seq<char>) -> Option<FundShareView>
    decreases shares.len(),
{
    if shares.len() == 0 {
        None
    } else if shares[0].address == wallet {
        Some(shares[0])
    } else {
        share_of(shares.drop_first(), wallet)
    }
}

/// The state that a contract starts in: nothing deposited, nobody settled.
pub open spec fn initial_state(config: ConfigView) -> StateView {
    StateView { config, fund_state: 0, claim_state: Map::empty() }
}

/// A change of configuration: for the administrator only. It replaces the
/// share table for what is apportioned from now on; baselines stay.
pub open spec fn config_update_step(s: StateView, sender: Seq<char>, new_config: ConfigView) -> (
    StateView,
    Answer,
) {
    if sender != s.config.admin {
        (s, Err(ContractError::Unauthorized))
    } else {
        (StateView { config: new_config, ..s }, Ok(nothing()))
    }
}

/// A deposit: the first coin that came with the call is added to the pool.
/// It must be there, of the accepted denomination and more than nothing.
pub open spec fn deposit_step(s: StateView, funds: Seq<CoinView>) -> (StateView, Answer) {
    if funds.len() == 0 || funds[0].denom != "uusd"@ || funds[0].amount == 0 {
        (s, Err(ContractError::EmptyBalance))
    } else if s.fund_state + funds[0].amount > u128::MAX {
        (s, Err(ContractError::ArithmeticFault))
    } else {
        (StateView { fund_state: (s.fund_state + funds[0].amount) as u128, ..s }, Ok(nothing()))
    }
}

/// What `wallet` may claim now: its share of what was deposited since its
/// baseline. `Err` where the wallet has no share, where its baseline lies
/// beyond the pool, or where the amount leaves the range of 128 bits.
pub open spec fn claimable(s: StateView, wallet: Seq<char>) -> Result<u128, ContractError> {
    match share_of(s.config.shares, wallet) {
        None => Err(ContractError::NotFound),
        Some(share) => {
            let settled = s.last_settled(wallet);
            if settled > s.fund_state {
                Err(ContractError::ArithmeticFault)
            } else if share.portion((s.fund_state - settled) as nat) > u128::MAX {
                Err(ContractError::ArithmeticFault)
            } else {
                Ok(share.portion((s.fund_state - settled) as nat) as u128)
            }
        },
    }
}

/// The transfer of `amount`, less the network fee, to `to`.
pub open spec fn transfer_msg(to: Seq<char>, amount: CoinView) -> CosmosMsgView<()> {
    CosmosMsgView::Send { to_address: to, amount, fee_deductions: 1 }
}

/// The answer to a claim of `payout` by `wallet`: one transfer, from which
/// the network fee is deducted once, and three attributes.
pub open spec fn claim_response(wallet: Seq<char>, payout: u128) -> ResponseView<()> {
    ResponseView {
        messages: seq![transfer_msg(wallet, CoinView { denom: "uusd"@, amount: payout })],
        attributes: seq![
            attr("action"@, "claim"@),
            attr("ust"@, decimal(payout as nat)),
            attr("wallet"@, wallet),
        ],
    }
}

/// A claim: the caller is paid its share of what was deposited since its
/// baseline, and its baseline becomes the pool size.
pub open spec fn claim_step(s: StateView, sender: Seq<char>) -> (StateView, Answer) {
    match claimable(s, sender) {
        Err(e) => (s, Err(e)),
        Ok(payout) => (
            StateView { claim_state: s.claim_state.insert(sender, s.fund_state), ..s },
            Ok(claim_response(sender, payout)),
        ),
    }
}

/// The claim status of `wallet`; all zero, and no baseline, for a wallet
/// without a share.
pub open spec fn claim_status(s: StateView, wallet: Seq<char>) -> Result<
    ClaimStatusResponse,
    ContractError,
> {
    match share_of(s.config.shares, wallet) {
        None => Ok(
            ClaimStatusResponse { claimable_ust: 0, claimed_ust: None, total_ust: 0, share: 0 },
        ),
        Some(share) => match claimable(s, wallet) {
            Err(e) => Err(e),
            Ok(amount) => Ok(
                ClaimStatusResponse {
                    claimable_ust: amount,
                    claimed_ust: Some(s.last_settled(wallet)),
                    total_ust: s.fund_state,
                    share: share.share,
                },
            ),
        },
    }
}

/// What a request does to the state, and the answer to it.
pub open spec fn execute_step(s: StateView, info: MessageInfoView, msg: ExecuteMsgView) -> (
    StateView,
    Answer,
) {
    match msg {
        ExecuteMsgView::ConfigUpdate { config } => config_update_step(s, info.sender, config),
        ExecuteMsgView::Deposit => deposit_step(s, info.funds),
        ExecuteMsgView::Claim => claim_step(s, info.sender),
    }
}

/// The answer to a query.
pub open spec fn query_answer(s: StateView, msg: QueryMsgView) -> Result<
    QueryResponseView,
    ContractError,
> {
    match msg {
        QueryMsgView::Config => Ok(QueryResponseView::Config(s.config)),
        QueryMsgView::ClaimStatus { wallet } => match claim_status(s, wallet) {
            Ok(status) => Ok(QueryResponseView::ClaimStatus(status)),
            Err(e) => Err(e),
        },
    }
}

/// The view of what a query returned.
pub open spec fn query_outcome(r: Result<QueryResponse, ContractError>) -> Result<
    QueryResponseView,
    ContractError,
> {
    match r {
        Ok(response) => Ok(response@),
        Err(e) => Err(e),
    }
}

/// The position of the first line of the share table that names `wallet`.
pub fn find_share(shares: &Vec<FundShare>, wallet: &String) -> (found: Option<usize>)
    ensures
        match found {
            Some(i) => i < shares.len() && share_of(shares.deep_view(), wallet@) == Some(
                shares[i as int]@,
            ),
            None => share_of(shares.deep_view(), wallet@) is None,
        },
{
    let ghost all = shares.deep_view();
    let n = shares.len();
    assert(all.subrange(0, n as int) =~= all);
    for i in 0..n
        invariant
            n == shares.len(),
            all == shares.deep_view(),
            share_of(all, wallet@) == share_of(all.subrange(i as int, n as int), wallet@),
    {
        let ghost rest = all.subrange(i as int, n as int);
        if shares[i].address == *wallet {
            return Some(i);
        }
        assert(rest.drop_first() =~= all.subrange(i + 1, n as int));
    }
    None
}

/// Starts a contract with this configuration.
pub fn instantiate(_env: &Env, _info: &MessageInfo, msg: InstantiateMsg) -> (state: State)
    ensures
        state@ == initial_state(msg.config@),
{
    State { config: msg.config, fund_state: 0, claim_state: ClaimState::new() }
}

/// Keeps the state as it is.
pub fn migrate(_state: &State, _env: &Env, _msg: MigrateMsg) -> (r: Result<
    Response<()>,
    ContractError,
>)
    ensures
        outcome(r) == Ok::<ResponseView<()>, ContractError>(nothing()),
{
    Ok(Response::new())
}

/// Carries out a request.
pub fn execute(state: &mut State, env: &Env, info: &MessageInfo, msg: ExecuteMsg) -> (r: Result<
    Response<()>,
    ContractError,
>)
    ensures
        (final(state)@, outcome(r)) == execute_step(old(state)@, info@, msg@),
{
    match msg {
        ExecuteMsg::ConfigUpdate { config } => try_config_update(state, env, info, config),
        ExecuteMsg::Deposit {  } => try_deposit(state, env, info),
        ExecuteMsg::Claim {  } => try_claim(state, env, info),
    }
}

/// The transfer of `cns`, less the network fee, to `to`.
pub fn transfer_funds(to: &String, cns: Coin) -> (msg: CosmosMsg<()>)
    ensures
        msg@ == transfer_msg(to@, cns@),
{
    CosmosMsg::Send { to_address: to.clone(), amount: cns, fee_deductions: 1 }
}

/// Replaces the configuration, for the administrator.
pub fn try_config_update(
    state: &mut State,
    _env: &Env,
    info: &MessageInfo,
    new_config: Config,
) -> (r: Result<Response<()>, ContractError>)
    ensures
        (final(state)@, outcome(r)) == config_update_step(
            old(state)@,
            info.sender@,
            new_config@,
        ),
{
    if let Err(e) = require_admin(&info.sender, &state.config.admin) {
        return Err(e);
    }
    state.config = new_config;
    Ok(Response::new())
}

/// Pays the caller its share of what was deposited since its last claim.
pub fn try_claim(state: &mut State, _env: &Env, info: &MessageInfo) -> (r: Result<
    Response<()>,
    ContractError,
>)
    ensures
        (final(state)@, outcome(r)) == claim_step(old(state)@, info.sender@),
{
    let found = find_share(&state.config.shares, &info.sender);
    match found {
        None => Err(ContractError::NotFound),
        Some(i) => {
            let funds = state.fund_state;
            let settled = match state.claim_state.may_load(&info.sender) {
                None => 0,
                Some(settled) => settled,
            };
            if settled > funds {
                return Err(ContractError::ArithmeticFault);
            }
            let owed: u128 = funds - settled;
            if !state.config.shares[i].share_fits(owed) {
                return Err(ContractError::ArithmeticFault);
            }
            let payout = state.config.shares[i].get_share(owed);
            state.claim_state.save(&info.sender, funds);
            let response = Response::new().add_attribute(
                "action",
                "claim".to_owned(),
            ).add_attribute("ust", to_decimal(payout)).add_attribute(
                "wallet",
                info.sender.clone(),
            ).add_message(transfer_funds(&info.sender, coin(payout, "uusd")));
            assert(response@.attributes =~= claim_response(info.sender@, payout).attributes);
            Ok(response)
        },
    }
}

/// Adds the first coin that came with the call to the pool.
pub fn try_deposit(state: &mut State, _env: &Env, info: &MessageInfo) -> (r: Result<
    Response<()>,
    ContractError,
>)
    ensures
        (final(state)@, outcome(r)) == deposit_step(old(state)@, info@.funds),
{
    if info.funds.len() == 0 {
        return Err(ContractError::EmptyBalance);
    }
    if !same_text(&info.funds[0].denom, "uusd") || info.funds[0].amount == 0 {
        return Err(ContractError::EmptyBalance);
    }
    match state.fund_state.checked_add(info.funds[0].amount) {
        None => Err(ContractError::ArithmeticFault),
        Some(total) => {
            state.fund_state = total;
            Ok(Response::new())
        },
    }
}

/// Answers a query.
pub fn query(state: &State, env: &Env, msg: QueryMsg) -> (r: Result<QueryResponse, ContractError>)
    ensures
        query_outcome(r) == query_answer(state@, msg@),
{
    match msg {
        QueryMsg::Config {  } => Ok(QueryResponse::Config(get_config(state, env))),
        QueryMsg::ClaimStatus { wallet } => match get_claim_status(state, env, wallet) {
            Ok(status) => Ok(QueryResponse::ClaimStatus(status)),
            Err(e) => Err(e),
        },
    }
}

/// The configuration.
pub fn get_config(state: &State, _env: &Env) -> (response: ConfigResponse)
    ensures
        response.config@ == state@.config,
{
    ConfigResponse { config: state.config.clone() }
}

/// What `wallet` may claim now, and what it was paid up to.
pub fn get_claim_status(state: &State, _env: &Env, wallet: String) -> (r: Result<
    ClaimStatusResponse,
    ContractError,
>)
    ensures
        r == claim_status(state@, wallet@),
{
    let found = find_share(&state.config.shares, &wallet);
    match found {
        None => Ok(
            ClaimStatusResponse { claimable_ust: 0, claimed_ust: None, total_ust: 0, share: 0 },
        ),
        Some(i) => {
            let funds = state.fund_state;
            let settled = match state.claim_state.may_load(&wallet) {
                None => 0,
                Some(settled) => settled,
            };
            if settled > funds {
                return Err(ContractError::ArithmeticFault);
            }
            let owed: u128 = funds - settled;
            if !state.config.shares[i].share_fits(owed) {
                return Err(ContractError::ArithmeticFault);
            }
            Ok(
                ClaimStatusResponse {
                    claimable_ust: state.config.shares[i].get_share(owed),
                    claimed_ust: Some(settled),
                    total_ust: funds,
                    share: state.config.shares[i].share,
                },
            )
        },
    }
}

} // verus!
