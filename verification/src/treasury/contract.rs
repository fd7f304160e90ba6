//! The operations of the treasury. Each is a transition from the state and
//! the request to the next state and the answer; what it does is given by a
//! function on the mathematical values of these.

use vstd::prelude::*;
use crate::auth::require_admin;
use crate::errors::ContractError;
use crate::host::{
    attr, coin, outcome, AttributeView, Coin, CoinView, CosmosMsg, CosmosMsgView, Env, EnvView,
    MessageInfo, MessageInfoView, Response, ResponseView,
};
use crate::treasury::msg::{
    AnchorExecuteMsg, ConfigResponse, ExecuteMsg, ExecuteMsgView, InstantiateMsg, MigrateMsg,
    Payload, PayloadView, QueryMsg,
};
use crate::treasury::state::{Config, ConfigView, State, StateView};

verus! {

/// A message of the treasury.
pub type Msg = CosmosMsgView<PayloadView>;

/// An answer of the treasury.
pub type Answer = Result<ResponseView<PayloadView>, ContractError>;

/// The answer with these messages and these attributes.
pub open spec fn reply(messages: Seq<Msg>, attributes: Seq<AttributeView>) -> ResponseView<
    PayloadView,
> {
    ResponseView { messages, attributes }
}

/// The deposit of `coins` with the savings market, after the network fee has
/// been deducted from them twice.
pub open spec fn anchor_deposit_msg(contract_addr: Seq<char>, coins: Seq<CoinView>) -> Msg {
    CosmosMsgView::Execute {
        contract_addr,
        msg: PayloadView::Anchor(AnchorExecuteMsg::DepositStable {  }),
        funds: coins,
        fee_deductions: 2,
    }
}

/// The order to redeem `amount` of the savings token.
pub open spec fn redeem_msg(config: ConfigView, amount: u128) -> Msg {
    CosmosMsgView::Execute {
        contract_addr: config.aust_contract,
        msg: PayloadView::RedeemStable { contract: config.anchor_smart_contract, amount },
        funds: Seq::empty(),
        fee_deductions: 0,
    }
}

/// The transfer of `amount`, less the network fee, to `to`.
pub open spec fn transfer_msg(to: Seq<char>, amount: CoinView) -> Msg {
    CosmosMsgView::Send { to_address: to, amount, fee_deductions: 1 }
}

/// The state that a treasury starts in.
pub open spec fn initial_state(config: ConfigView) -> StateView {
    StateView { config }
}

/// A change of configuration: for the administrator only.
pub open spec fn config_update_step(s: StateView, sender: Seq<char>, new_config: ConfigView) -> (
    StateView,
    Answer,
) {
    if sender != s.config.admin {
        (s, Err(ContractError::Unauthorized))
    } else {
        (StateView { config: new_config }, Ok(reply(Seq::empty(), Seq::empty())))
    }
}

/// A redemption of savings: for the administrator only.
pub open spec fn anchor_withdraw_step(s: StateView, sender: Seq<char>, amount: u128) -> (
    StateView,
    Answer,
) {
    if sender != s.config.admin {
        (s, Err(ContractError::Unauthorized))
    } else {
        (s, Ok(reply(seq![redeem_msg(s.config, amount)], seq![attr("action"@, "anchor_withdraw"@)])))
    }
}

/// A withdrawal of the whole balance to the administrator, who alone may
/// ask for it.
pub open spec fn withdraw_fund_step(s: StateView, env: EnvView, sender: Seq<char>) -> (
    StateView,
    Answer,
) {
    if sender != s.config.admin {
        (s, Err(ContractError::Unauthorized))
    } else {
        (s, Ok(reply(seq![transfer_msg(sender, env.balance)], Seq::empty())))
    }
}

/// A deposit: the amount of the first coin that came with the call goes to
/// the savings market, in the accepted denomination.
pub open spec fn deposit_step(s: StateView, funds: Seq<CoinView>) -> (StateView, Answer) {
    if funds.len() == 0 {
        (s, Err(ContractError::EmptyBalance))
    } else {
        (
            s,
            Ok(
                reply(
                    seq![
                        anchor_deposit_msg(
                            s.config.anchor_smart_contract,
                            seq![CoinView { denom: "uusd"@, amount: funds[0].amount }],
                        ),
                    ],
                    seq![attr("action"@, "treasury_deposit"@)],
                ),
            ),
        )
    }
}

/// What a request does to the state, and the answer to it.
pub open spec fn execute_step(
    s: StateView,
    env: EnvView,
    info: MessageInfoView,
    msg: ExecuteMsgView,
) -> (StateView, Answer) {
    match msg {
        ExecuteMsgView::ConfigUpdate { config } => config_update_step(s, info.sender, config),
        ExecuteMsgView::Deposit => deposit_step(s, info.funds),
        ExecuteMsgView::AnchorWithdraw { amount } => anchor_withdraw_step(s, info.sender, amount),
        ExecuteMsgView::WithdrawFund => withdraw_fund_step(s, env, info.sender),
    }
}

/// Starts a treasury with this configuration.
pub fn instantiate(_env: &Env, _info: &MessageInfo, msg: InstantiateMsg) -> (state: State)
    ensures
        state@ == initial_state(msg.config@),
{
    State { config: msg.config }
}

/// Carries out a request.
pub fn execute(state: &mut State, env: &Env, info: &MessageInfo, msg: ExecuteMsg) -> (r: Result<
    Response<Payload>,
    ContractError,
>)
    ensures
        (final(state)@, outcome(r)) == execute_step(old(state)@, env@, info@, msg@),
{
    match msg {
        ExecuteMsg::ConfigUpdate { config } => try_config_update(state, env, info, config),
        ExecuteMsg::Deposit {  } => try_deposit(state, env, info),
        ExecuteMsg::AnchorWithdraw { amount } => try_anchor_withdraw(state, env, info, amount),
        ExecuteMsg::WithdrawFund {  } => try_withdraw_fund(state, env, info),
    }
}

/// The transfer of `cns`, less the network fee, to `to`.
pub fn transfer_funds(to: &String, cns: Coin) -> (msg: CosmosMsg<Payload>)
    ensures
        msg@ == transfer_msg(to@, cns@),
{
    CosmosMsg::Send { to_address: to.clone(), amount: cns, fee_deductions: 1 }
}

/// Replaces the configuration, for the administrator.
pub fn try_config_update(
    state: &mut State,
    _env: &Env,
    info: &MessageInfo,
    new_config: Config,
) -> (r: Result<Response<Payload>, ContractError>)
    ensures
        (final(state)@, outcome(r)) == config_update_step(
            old(state)@,
            info.sender@,
            new_config@,
        ),
{
    if let Err(e) = require_admin(&info.sender, &state.config.admin) {
        return Err(e);
    }
    state.config = new_config;
    Ok(Response::new())
}

/// Orders the redemption of `amount` of the savings token, for the
/// administrator.
pub fn try_anchor_withdraw(state: &mut State, _env: &Env, info: &MessageInfo, amount: u128) -> (r:
    Result<Response<Payload>, ContractError>)
    ensures
        (final(state)@, outcome(r)) == anchor_withdraw_step(old(state)@, info.sender@, amount),
{
    if let Err(e) = require_admin(&info.sender, &state.config.admin) {
        return Err(e);
    }
    let funds: Vec<Coin> = Vec::new();
    assert(funds.deep_view() =~= Seq::empty());
    let exec = CosmosMsg::Execute {
        contract_addr: state.config.aust_contract.clone(),
        msg: Payload::RedeemStable {
            contract: state.config.anchor_smart_contract.clone(),
            amount,
        },
        funds,
        fee_deductions: 0,
    };
    Ok(Response::new().add_message(exec).add_attribute("action", "anchor_withdraw".to_owned()))
}

/// Transfers the whole balance to the administrator, on its request.
pub fn try_withdraw_fund(state: &mut State, env: &Env, info: &MessageInfo) -> (r: Result<
    Response<Payload>,
    ContractError,
>)
    ensures
        (final(state)@, outcome(r)) == withdraw_fund_step(old(state)@, env@, info.sender@),
{
    if let Err(e) = require_admin(&info.sender, &state.config.admin) {
        return Err(e);
    }
    Ok(Response::new().add_message(transfer_funds(&info.sender, env.balance.clone())))
}

/// The deposit of `coins` with the savings market, after the network fee has
/// been deducted from them twice.
pub fn acnchor_deposit(contract_addr: String, coins: Vec<Coin>) -> (msg: CosmosMsg<Payload>)
    ensures
        msg@ == anchor_deposit_msg(contract_addr@, coins.deep_view()),
{
    CosmosMsg::Execute {
        contract_addr,
        msg: Payload::Anchor(AnchorExecuteMsg::DepositStable {  }),
        funds: coins,
        fee_deductions: 2,
    }
}

/// Forwards the amount of the first coin that came with the call to the
/// savings market.
pub fn try_deposit(state: &mut State, _env: &Env, info: &MessageInfo) -> (r: Result<
    Response<Payload>,
    ContractError,
>)
    ensures
        (final(state)@, outcome(r)) == deposit_step(old(state)@, info@.funds),
{
    if info.funds.len() == 0 {
        return Err(ContractError::EmptyBalance);
    }
    let mut coins: Vec<Coin> = Vec::new();
    coins.push(coin(info.funds[0].amount, "uusd"));
    assert(coins.deep_view() =~= seq![CoinView { denom: "uusd"@, amount: info.funds[0].amount }]);
    Ok(
        Response::new().add_message(
            acnchor_deposit(state.config.anchor_smart_contract.clone(), coins),
        ).add_attribute("action", "treasury_deposit".to_owned()),
    )
}

/// Keeps the state as it is.
pub fn migrate(_state: &State, _env: &Env, _msg: MigrateMsg) -> (r: Result<
    Response<Payload>,
    ContractError,
>)
    ensures
        outcome(r) == Ok::<ResponseView<PayloadView>, ContractError>(
            reply(Seq::empty(), Seq::empty()),
        ),
{
    Ok(Response::new())
}

/// Answers a query.
pub fn query(state: &State, env: &Env, msg: QueryMsg) -> (response: ConfigResponse)
    ensures
        response.config@ == state@.config,
{
    match msg {
        QueryMsg::Config {  } => get_config(state, env),
    }
}

/// The configuration.
pub fn get_config(state: &State, _env: &Env) -> (response: ConfigResponse)
    ensures
        response.config@ == state@.config,
{
    ConfigResponse { config: state.config.clone() }
}

} // verus!
