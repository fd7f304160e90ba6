//! The operations of the sale contract. Each is a transition from the state
//! and the request to the next state and the answer; what it does is given
//! by a function on the mathematical values of these.

use vstd::prelude::*;
use crate::auth::require_admin;
use crate::decimal::{decimal, to_decimal};
use crate::delorean::msg::{
    ConfigResponse, Cw721ExecuteMsg, Cw721ExecuteMsgView, DegenInfoResponse, ExecuteMsg,
    ExecuteMsgView, FundDepositMsg, InstantiateMsg, MigrateMsg, Payload, PayloadView, QueryMsg,
    QueryResponse, QueryResponseView, RoundInfoResponse, SecureMintMsg, SecureMintMsgView,
    WinnersResponse,
};
use crate::delorean::state::{
    Config, ConfigView, DegenInfo, FundShareView, Metadata, MetadataView, NftMetaInfoView,
    RoundInfo, RoundInfoView, State, StateView, WinnerInfo, WinnerInfoView,
};
use crate::errors::ContractError;
use crate::host::{
    attr, coin, outcome, AttributeView, Coin, CoinView, CosmosMsg, CosmosMsgView, Env, EnvView,
    MessageInfo, MessageInfoView, Response, ResponseView,
};

verus! {

/// A message of the sale contract.
pub type Msg = CosmosMsgView<PayloadView>;

/// An answer of the sale contract.
pub type Answer = Result<ResponseView<PayloadView>, ContractError>;

/// The answer with these messages and these attributes.
pub open spec fn reply(messages: Seq<Msg>, attributes: Seq<AttributeView>) -> ResponseView<
    PayloadView,
> {
    ResponseView { messages, attributes }
}

/// The answer of a refused request.
pub open spec fn refused(e: ContractError) -> Answer {
    Err(e)
}

/// The forwarding of `amount`, less the network fee, to a beneficiary's own
/// contract.
pub open spec fn deposit_msg(contract_addr: Seq<char>, amount: CoinView) -> Msg {
    CosmosMsgView::Execute {
        contract_addr,
        msg: PayloadView::Deposit(FundDepositMsg::Deposit {  }),
        funds: seq![amount],
        fee_deductions: 1,
    }
}

/// The order to mint a collectible for `owner`.
pub open spec fn secure_mint_msg(
    contract_addr: Seq<char>,
    owner: Seq<char>,
    extension: MetadataView,
    token_uri: Seq<char>,
) -> Msg {
    CosmosMsgView::Execute {
        contract_addr,
        msg: PayloadView::SecureMint(SecureMintMsgView::SecureMint { owner, token_uri, extension }),
        funds: Seq::empty(),
        fee_deductions: 0,
    }
}

/// The order to burn a collectible.
pub open spec fn burn_msg(contract_addr: Seq<char>, token_id: Seq<char>) -> Msg {
    CosmosMsgView::Execute {
        contract_addr,
        msg: PayloadView::Burn(Cw721ExecuteMsgView::Burn { token_id }),
        funds: Seq::empty(),
        fee_deductions: 0,
    }
}

/// The transfer of a prize, less the network fee, to its winner.
pub open spec fn prize_msg(winner: WinnerInfoView) -> Msg {
    CosmosMsgView::Send {
        to_address: winner.winner_address,
        amount: winner.winner_amount,
        fee_deductions: 1,
    }
}

/// The state that a contract starts in.
pub open spec fn initial_state(config: ConfigView) -> StateView {
    StateView {
        config,
        nft2_funds: 0,
        round_info: None,
        winner_info: None,
        degen_info: Set::empty(),
    }
}

/// A change of configuration: for the administrator only.
pub open spec fn config_update_step(s: StateView, sender: Seq<char>, new_config: ConfigView) -> (
    StateView,
    Answer,
) {
    if sender != s.config.admin {
        (s, Err(ContractError::Unauthorized))
    } else {
        (
            StateView { config: new_config, ..s },
            Ok(reply(Seq::empty(), seq![attr("action"@, "config_update"@)])),
        )
    }
}

/// The recording of a winner: for the administrator only. The record takes
/// the place of any earlier one, claimed or not.
pub open spec fn winners_update_step(s: StateView, sender: Seq<char>, winner: WinnerInfoView) -> (
    StateView,
    Answer,
) {
    if sender != s.config.admin {
        (s, Err(ContractError::Unauthorized))
    } else {
        (
            StateView { winner_info: Some(winner), ..s },
            Ok(reply(Seq::empty(), seq![attr("action"@, "winner_update"@)])),
        )
    }
}

/// Whether `sender` may claim the prize of this record at `seconds`: it is
/// the winner, the prize is unclaimed, and the deadline has not come.
pub open spec fn may_claim(winner: WinnerInfoView, sender: Seq<char>, seconds: u64) -> bool {
    winner.winner_address == sender && !winner.claimed && seconds < winner.claim_end_time
}

/// A claim of the prize: the record is marked claimed, the prize is
/// transferred and a collectible is burned.
pub open spec fn claim_prize_step(
    s: StateView,
    env: EnvView,
    sender: Seq<char>,
    burn_nft_id: Seq<char>,
) -> (StateView, Answer) {
    match s.winner_info {
        None => (s, Err(ContractError::NotFound)),
        Some(winner) => if !may_claim(winner, sender, env.seconds()) {
            (s, Err(ContractError::Unauthorized))
        } else {
            (
                StateView {
                    winner_info: Some(WinnerInfoView { claimed: true, ..winner }),
                    ..s
                },
                Ok(
                    reply(
                        seq![prize_msg(winner), burn_msg(s.config.nft_contract, burn_nft_id)],
                        seq![attr("action"@, "winner_prize_claim"@)],
                    ),
                ),
            )
        },
    }
}

/// A burn for participation: a collectible is burned and the caller is
/// recorded in the ledger. Whether the caller owns the collectible is for
/// the contract that burns it to say.
pub open spec fn degen_burn_step(s: StateView, sender: Seq<char>, burn_nft_id: Seq<char>) -> (
    StateView,
    Answer,
) {
    (
        StateView { degen_info: s.degen_info.insert(sender), ..s },
        Ok(
            reply(
                seq![burn_msg(s.config.nft_contract, burn_nft_id)],
                seq![attr("action"@, "burn_nft"@), attr("id"@, burn_nft_id)],
            ),
        ),
    )
}

/// A purchase of product `nft_type`, counted from 1: the first coin that
/// came with the call must be the price, no more and no less. The proceeds
/// of the second product are added to the sub-pool.
pub open spec fn mint_step(s: StateView, info: MessageInfoView, nft_type: u32) -> (
    StateView,
    Answer,
) {
    if nft_type == 0 {
        (s, Err(ContractError::ArithmeticFault))
    } else if nft_type > s.config.nfts.len() {
        (s, Err(ContractError::Unauthorized))
    } else if info.funds.len() == 0 {
        (s, Err(ContractError::EmptyBalance))
    } else {
        let product = s.config.nfts[nft_type - 1];
        let paid = info.funds[0];
        if product.price.denom != paid.denom || paid.amount != product.price.amount {
            (s, Err(ContractError::InsufficientFund))
        } else if nft_type == 2 && s.nft2_funds + paid.amount > u128::MAX {
            (s, Err(ContractError::ArithmeticFault))
        } else {
            (
                StateView {
                    nft2_funds: if nft_type == 2 {
                        (s.nft2_funds + paid.amount) as u128
                    } else {
                        s.nft2_funds
                    },
                    ..s
                },
                Ok(
                    reply(
                        seq![
                            secure_mint_msg(
                                s.config.mint_contract,
                                info.sender,
                                product.nft_metadata,
                                Seq::empty(),
                            ),
                        ],
                        seq![attr("action"@, "mint"@), attr("nft"@, decimal(nft_type as nat))],
                    ),
                ),
            )
        }
    }
}

/// The pool that a product's share table is paid from: the main pool for
/// the first product, the sub-pool for every other.
pub open spec fn pool_of(product: int, main_pool: u128, sub_pool: u128) -> u128 {
    if product == 0 {
        main_pool
    } else {
        sub_pool
    }
}

/// One deposit for each line of a share table, of the line's portion of
/// `pool`, in the table's order.
pub open spec fn share_deposits(shares: Seq<FundShareView>, pool: u128, denom: Seq<char>) -> Seq<
    Msg,
> {
    Seq::new(
        shares.len(),
        |j: int|
            deposit_msg(
                shares[j].address,
                CoinView { denom, amount: shares[j].portion(pool as nat) as u128 },
            ),
    )
}

/// The deposits of a round update: product by product, each product's share
/// table applied to its pool.
pub open spec fn round_deposits(
    nfts: Seq<NftMetaInfoView>,
    main_pool: u128,
    sub_pool: u128,
    denom: Seq<char>,
) -> Seq<Msg>
    decreases nfts.len(),
{
    if nfts.len() == 0 {
        Seq::empty()
    } else {
        round_deposits(nfts.drop_last(), main_pool, sub_pool, denom) + share_deposits(
            nfts.last().shares,
            pool_of(nfts.len() - 1, main_pool, sub_pool),
            denom,
        )
    }
}

/// Every portion of a round update fits in 128 bits.
pub open spec fn deposits_fit(nfts: Seq<NftMetaInfoView>, main_pool: u128, sub_pool: u128) -> bool {
    forall|i: int, j: int|
        #![trigger nfts[i].shares[j]]
        0 <= i < nfts.len() && 0 <= j < nfts[i].shares.len() ==> nfts[i].shares[j].portion(
            pool_of(i, main_pool, sub_pool) as nat,
        ) <= u128::MAX
}

/// A round update: for the administrator only. The balance is split into
/// the sub-pool, as counted, and the main pool, which is the rest; both are
/// paid out through the share tables; then the sub-pool counter is zero and
/// the participation ledger empty.
pub open spec fn round_update_step(
    s: StateView,
    env: EnvView,
    sender: Seq<char>,
    round: RoundInfoView,
) -> (StateView, Answer) {
    if sender != s.config.admin {
        (s, Err(ContractError::Unauthorized))
    } else if env.balance.amount < s.nft2_funds {
        (s, Err(ContractError::ArithmeticFault))
    } else {
        let main_pool = (env.balance.amount - s.nft2_funds) as u128;
        if !deposits_fit(s.config.nfts, main_pool, s.nft2_funds) {
            (s, Err(ContractError::ArithmeticFault))
        } else {
            (
                StateView {
                    round_info: Some(round),
                    nft2_funds: 0,
                    degen_info: Set::empty(),
                    ..s
                },
                Ok(
                    reply(
                        round_deposits(s.config.nfts, main_pool, s.nft2_funds, env.balance.denom),
                        seq![attr("action"@, "round_update"@)],
                    ),
                ),
            )
        }
    }
}

/// What a request does to the state, and the answer to it.
pub open spec fn execute_step(
    s: StateView,
    env: EnvView,
    info: MessageInfoView,
    msg: ExecuteMsgView,
) -> (StateView, Answer) {
    match msg {
        ExecuteMsgView::ConfigUpdate { config } => config_update_step(s, info.sender, config),
        ExecuteMsgView::WinnerUpdate { winner } => winners_update_step(s, info.sender, winner),
        ExecuteMsgView::ClaimPrize { burn_nft_id } => claim_prize_step(
            s,
            env,
            info.sender,
            burn_nft_id,
        ),
        ExecuteMsgView::Degen { burn_nft_id } => degen_burn_step(s, info.sender, burn_nft_id),
        ExecuteMsgView::RoundUpdate { round_info } => round_update_step(
            s,
            env,
            info.sender,
            round_info,
        ),
        ExecuteMsgView::Mint { nft_type } => mint_step(s, info, nft_type),
    }
}

/// The answer to a query.
pub open spec fn query_answer(s: StateView, msg: QueryMsg) -> QueryResponseView {
    match msg {
        QueryMsg::Config {  } => QueryResponseView::Config(s.config),
        QueryMsg::Winners {  } => QueryResponseView::Winners(s.winner_info),
        QueryMsg::RoundInfo {  } => QueryResponseView::RoundInfo(s.round_info),
        QueryMsg::DegenInfo {  } => QueryResponseView::DegenInfo(s.degen_info),
    }
}

/// Starts a contract with this configuration.
pub fn instantiate(_env: &Env, _info: &MessageInfo, msg: InstantiateMsg) -> (state: State)
    ensures
        state@ == initial_state(msg.config@),
{
    State {
        config: msg.config,
        nft2_funds: 0,
        round_info: None,
        winner_info: None,
        degen_info: DegenInfo::new(),
    }
}

/// Keeps the state as it is.
pub fn migrate(_state: &State, _env: &Env, _msg: MigrateMsg) -> (r: Result<
    Response<Payload>,
    ContractError,
>)
    ensures
        outcome(r) == Ok::<ResponseView<PayloadView>, ContractError>(
            reply(Seq::empty(), Seq::empty()),
        ),
{
    Ok(Response::new())
}

/// Carries out a request.
pub fn execute(state: &mut State, env: &Env, info: &MessageInfo, msg: ExecuteMsg) -> (r: Result<
    Response<Payload>,
    ContractError,
>)
    ensures
        (final(state)@, outcome(r)) == execute_step(old(state)@, env@, info@, msg@),
{
    match msg {
        ExecuteMsg::ConfigUpdate { config } => try_config_update(state, env, info, config),
        ExecuteMsg::WinnerUpdate { winner } => try_winners_update(state, env, info, winner),
        ExecuteMsg::ClaimPrize { burn_nft_id } => try_claim_prize(state, env, info, burn_nft_id),
        ExecuteMsg::Degen { burn_nft_id } => try_degen_burn(state, env, info, burn_nft_id),
        ExecuteMsg::RoundUpdate { round_info } => try_round_update(state, env, info, round_info),
        ExecuteMsg::Mint { nft_type } => try_mint(state, env, info, nft_type),
    }
}

/// Answers a query.
pub fn query(state: &State, env: &Env, msg: QueryMsg) -> (response: QueryResponse)
    ensures
        response@ == query_answer(state@, msg),
        response matches QueryResponse::DegenInfo(ledger)
            ==> ledger.wallets.deep_view().no_duplicates(),
{
    match msg {
        QueryMsg::Config {  } => QueryResponse::Config(get_config(state, env)),
        QueryMsg::Winners {  } => QueryResponse::Winners(get_winners(state, env)),
        QueryMsg::RoundInfo {  } => QueryResponse::RoundInfo(get_round_info(state, env)),
        QueryMsg::DegenInfo {  } => QueryResponse::DegenInfo(get_degen_info(state, env)),
    }
}

/// Replaces the configuration, for the administrator.
pub fn try_config_update(
    state: &mut State,
    _env: &Env,
    info: &MessageInfo,
    new_config: Config,
) -> (r: Result<Response<Payload>, ContractError>)
    ensures
        (final(state)@, outcome(r)) == config_update_step(
            old(state)@,
            info.sender@,
            new_config@,
        ),
{
    if let Err(e) = require_admin(&info.sender, &state.config.admin) {
        return Err(e);
    }
    state.config = new_config;
    let response = Response::new().add_attribute("action", "config_update".to_owned());
    Ok(response)
}

/// Pays the recorded prize to the caller, if it is the winner, the prize is
/// unclaimed and the deadline has not come.
pub fn try_claim_prize(
    state: &mut State,
    env: &Env,
    info: &MessageInfo,
    burn_nft_id: String,
) -> (r: Result<Response<Payload>, ContractError>)
    ensures
        (final(state)@, outcome(r)) == claim_prize_step(
            old(state)@,
            env@,
            info.sender@,
            burn_nft_id@,
        ),
{
    let mut winner = match &state.winner_info {
        None => {
            return Err(ContractError::NotFound);
        },
        Some(winner) => winner.clone(),
    };
    let time = env.seconds();
    if !(winner.winner_address == info.sender) || winner.claimed || !(time
        < winner.claim_end_time) {
        return Err(ContractError::Unauthorized);
    }
    let burn = CosmosMsg::Execute {
        contract_addr: state.config.nft_contract.clone(),
        msg: Payload::Burn(Cw721ExecuteMsg::Burn { token_id: burn_nft_id }),
        funds: Vec::new(),
        fee_deductions: 0,
    };
    assert(burn@ =~= burn_msg(state@.config.nft_contract, burn_nft_id@)) by {
        assert(burn->Execute_funds.deep_view() =~= Seq::empty());
    }
    let prize = CosmosMsg::Send {
        to_address: winner.winner_address.clone(),
        amount: winner.winner_amount.clone(),
        fee_deductions: 1,
    };
    winner.claimed = true;
    state.winner_info = Some(winner);
    let response = Response::new().add_message(prize).add_message(burn).add_attribute(
        "action",
        "winner_prize_claim".to_owned(),
    );
    proof {
        let before = old(state)@.winner_info->0;
        assert(response@.messages =~= seq![
            prize_msg(before),
            burn_msg(old(state)@.config.nft_contract, burn_nft_id@),
        ]);
    }
    Ok(response)
}

/// Burns a collectible and records the caller in the participation ledger.
pub fn try_degen_burn(
    state: &mut State,
    _env: &Env,
    info: &MessageInfo,
    burn_nft_id: String,
) -> (r: Result<Response<Payload>, ContractError>)
    ensures
        (final(state)@, outcome(r)) == degen_burn_step(old(state)@, info.sender@, burn_nft_id@),
{
    let burn = CosmosMsg::Execute {
        contract_addr: state.config.nft_contract.clone(),
        msg: Payload::Burn(Cw721ExecuteMsg::Burn { token_id: burn_nft_id.clone() }),
        funds: Vec::new(),
        fee_deductions: 0,
    };
    assert(burn@ =~= burn_msg(state@.config.nft_contract, burn_nft_id@)) by {
        assert(burn->Execute_funds.deep_view() =~= Seq::empty());
    }
    state.degen_info.save(&info.sender);
    let response = Response::new().add_message(burn).add_attribute(
        "action",
        "burn_nft".to_owned(),
    ).add_attribute("id", burn_nft_id);
    proof {
        assert(response@.attributes =~= seq![
            attr("action"@, "burn_nft"@),
            attr("id"@, burn_nft_id@),
        ]);
    }
    Ok(response)
}

/// Records a winner, for the administrator.
pub fn try_winners_update(
    state: &mut State,
    _env: &Env,
    info: &MessageInfo,
    winner: WinnerInfo,
) -> (r: Result<Response<Payload>, ContractError>)
    ensures
        (final(state)@, outcome(r)) == winners_update_step(old(state)@, info.sender@, winner@),
{
    if let Err(e) = require_admin(&info.sender, &state.config.admin) {
        return Err(e);
    }
    state.winner_info = Some(winner);
    let response = Response::new().add_attribute("action", "winner_update".to_owned());
    Ok(response)
}

/// Sells product `nft_type`, counted from 1, at its price.
pub fn try_mint(state: &mut State, _env: &Env, info: &MessageInfo, nft_type: u32) -> (r: Result<
    Response<Payload>,
    ContractError,
>)
    ensures
        (final(state)@, outcome(r)) == mint_step(old(state)@, info@, nft_type),
{
    if nft_type == 0 {
        return Err(ContractError::ArithmeticFault);
    }
    let index = (nft_type - 1) as usize;
    if index >= state.config.nfts.len() {
        return Err(ContractError::Unauthorized);
    }
    if info.funds.len() == 0 {
        return Err(ContractError::EmptyBalance);
    }
    if !(state.config.nfts[index].price.denom == info.funds[0].denom) {
        return Err(ContractError::InsufficientFund);
    }
    if info.funds[0].amount != state.config.nfts[index].price.amount {
        return Err(ContractError::InsufficientFund);
    }
    if index == 1 {
        match state.nft2_funds.checked_add(info.funds[0].amount) {
            None => {
                return Err(ContractError::ArithmeticFault);
            },
            Some(total) => {
                state.nft2_funds = total;
            },
        }
    }
    let order = secure_mint_nft(
        state.config.mint_contract.clone(),
        info.sender.clone(),
        state.config.nfts[index].nft_metadata.clone(),
        String::new(),
    );
    let response = Response::new().add_message(order).add_attribute(
        "action",
        "mint".to_owned(),
    ).add_attribute("nft", to_decimal(nft_type as u128));
    proof {
        assert(response@.attributes =~= seq![
            attr("action"@, "mint"@),
            attr("nft"@, decimal(nft_type as nat)),
        ]);
    }
    Ok(response)
}

/// Records the new round, pays both pools out through the share tables,
/// and resets the sub-pool counter and the participation ledger; for the
/// administrator.
pub fn try_round_update(
    state: &mut State,
    env: &Env,
    info: &MessageInfo,
    round: RoundInfo,
) -> (r: Result<Response<Payload>, ContractError>)
    ensures
        (final(state)@, outcome(r)) == round_update_step(old(state)@, env@, info.sender@, round@),
        r is Ok ==> final(state)@.nft2_funds == 0 && final(state)@.degen_info == Set::<
            Seq<char>,
        >::empty(),
{
    if let Err(e) = require_admin(&info.sender, &state.config.admin) {
        return Err(e);
    }
    let nft2_funds = state.nft2_funds;
    if env.balance.amount < nft2_funds {
        return Err(ContractError::ArithmeticFault);
    }
    let main_pool: u128 = env.balance.amount - nft2_funds;
    let ghost nfts = state@.config.nfts;
    let ghost denom = env@.balance.denom;
    let mut msgs: Vec<CosmosMsg<Payload>> = Vec::new();
    let n = state.config.nfts.len();
    for i in 0..n
        invariant
            *state == *old(state),
            info.sender@ == state@.config.admin,
            nft2_funds == state.nft2_funds,
            main_pool == env.balance.amount - nft2_funds,
            n == state.config.nfts.len(),
            nfts == state@.config.nfts,
            denom == env@.balance.denom,
            msgs.deep_view() == round_deposits(
                nfts.subrange(0, i as int),
                main_pool,
                nft2_funds,
                denom,
            ),
            forall|a: int, b: int|
                #![trigger nfts[a].shares[b]]
                0 <= a < i && 0 <= b < nfts[a].shares.len() ==> nfts[a].shares[b].portion(
                    pool_of(a, main_pool, nft2_funds) as nat,
                ) <= u128::MAX,
    {
        let share_amount = if i == 0 {
            main_pool
        } else {
            nft2_funds
        };
        let ghost before = msgs.deep_view();
        let ghost shares = nfts[i as int].shares;
        let m = state.config.nfts[i].shares.len();
        for j in 0..m
            invariant
                *state == *old(state),
                info.sender@ == state@.config.admin,
                nft2_funds == state.nft2_funds,
                main_pool == env.balance.amount - nft2_funds,
                i < n,
                n == state.config.nfts.len(),
                m == state.config.nfts[i as int].shares.len(),
                nfts == state@.config.nfts,
                shares == nfts[i as int].shares,
                shares == state.config.nfts[i as int].shares.deep_view(),
                denom == env@.balance.denom,
                share_amount == pool_of(i as int, main_pool, nft2_funds),
                msgs.deep_view() == before + share_deposits(
                    shares.subrange(0, j as int),
                    share_amount,
                    denom,
                ),
                forall|b: int|
                    #![trigger shares[b]]
                    0 <= b < j ==> shares[b].portion(share_amount as nat) <= u128::MAX,
        {
            let fund_share = &state.config.nfts[i].shares[j];
            assert(shares[j as int] == fund_share@);
            if !fund_share.share_fits(share_amount) {
                return Err(ContractError::ArithmeticFault);
            }
            let amount = fund_share.get_share(share_amount);
            let ghost sent = msgs.deep_view();
            msgs.push(
                deposit_funds(fund_share.address.clone(), coin(amount, env.balance.denom.as_str())),
            );
            assert(msgs.deep_view() =~= sent.push(
                deposit_msg(fund_share@.address, CoinView { denom, amount }),
            ));
        }
        assert(nfts.subrange(0, i + 1).drop_last() =~= nfts.subrange(0, i as int));
    }
    assert(nfts.subrange(0, n as int) =~= nfts);
    state.round_info = Some(round);
    state.nft2_funds = 0;
    state.degen_info.clear();
    Ok(Response::new().add_messages(msgs).add_attribute("action", "round_update".to_owned()))
}

/// The forwarding of `coin`, less the network fee, to a beneficiary's own
/// contract.
pub fn deposit_funds(contract_addr: String, coin: Coin) -> (msg: CosmosMsg<Payload>)
    ensures
        msg@ == deposit_msg(contract_addr@, coin@),
{
    let mut funds: Vec<Coin> = Vec::new();
    funds.push(coin);
    assert(funds.deep_view() =~= seq![coin@]);
    CosmosMsg::Execute {
        contract_addr,
        msg: Payload::Deposit(FundDepositMsg::Deposit {  }),
        funds,
        fee_deductions: 1,
    }
}

/// The order to mint a collectible for `to`.
pub fn secure_mint_nft(
    contract_address: String,
    to: String,
    extension: Metadata,
    token_uri: String,
) -> (msg: CosmosMsg<Payload>)
    ensures
        msg@ == secure_mint_msg(contract_address@, to@, extension@, token_uri@),
{
    let funds: Vec<Coin> = Vec::new();
    assert(funds.deep_view() =~= Seq::empty());
    CosmosMsg::Execute {
        contract_addr: contract_address,
        msg: Payload::SecureMint(SecureMintMsg::SecureMint { owner: to, token_uri, extension }),
        funds,
        fee_deductions: 0,
    }
}

/// The configuration.
pub fn get_config(state: &State, _env: &Env) -> (response: ConfigResponse)
    ensures
        response.config@ == state@.config,
{
    ConfigResponse { config: state.config.clone() }
}

/// The current round, once one was recorded.
pub fn get_round_info(state: &State, _env: &Env) -> (response: RoundInfoResponse)
    ensures
        response.round.deep_view() == state@.round_info,
{
    RoundInfoResponse {
        round: match &state.round_info {
            None => None,
            Some(round) => Some(round.clone()),
        },
    }
}

/// The prize record, once one was recorded.
pub fn get_winners(state: &State, _env: &Env) -> (response: WinnersResponse)
    ensures
        response.winner.deep_view() == state@.winner_info,
{
    WinnersResponse {
        winner: match &state.winner_info {
            None => None,
            Some(winner) => Some(winner.clone()),
        },
    }
}

/// The wallets that took part in the current round, each once.
pub fn get_degen_info(state: &State, _env: &Env) -> (response: DegenInfoResponse)
    ensures
        response.wallets.deep_view().no_duplicates(),
        response.wallets.deep_view().to_set() == state@.degen_info,
{
    DegenInfoResponse { wallets: state.degen_info.wallets() }
}

} // verus!
