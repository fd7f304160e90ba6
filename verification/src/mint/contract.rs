//! The operations of the minting contract. Each is a transition from the
//! state and the request to the next state and the answer; what it does is
//! given by a function on the mathematical values of these.

use vstd::prelude::*;
use crate::auth::require_admin;
use crate::decimal::{decimal, to_decimal};
use crate::errors::ContractError;
use crate::host::{
    attr, coin, outcome, AttributeView, Coin, CoinView, CosmosMsg, CosmosMsgView, Env, MessageInfo,
    MessageInfoView, Response, ResponseView,
};
use crate::mint::msg::{
    ConfigResponse, ExecuteMsg, ExecuteMsgView, FundDepositExecuteMsg, InstantiateMsg, MigrateMsg,
    NftExecuteMsg, NftExecuteMsgView, Payload, PayloadView, QueryMsg, QueryResponse,
    QueryResponseView, StatusResponse,
};
use crate::mint::state::{
    Config, ConfigView, FundShareView, Metadata, MetadataView, MintStatus, State, StateView,
};

verus! {

/// A message of the minting contract.
pub type Msg = CosmosMsgView<PayloadView>;

/// An answer of the minting contract.
pub type Answer = Result<ResponseView<PayloadView>, ContractError>;

/// The answer with these messages and these attributes.
pub open spec fn reply(messages: Seq<Msg>, attributes: Seq<AttributeView>) -> ResponseView<
    PayloadView,
> {
    ResponseView { messages, attributes }
}

/// The order to mint token `token_id` for `owner`.
pub open spec fn mint_msg(
    owner: Seq<char>,
    token_id: Seq<char>,
    nft_contract: Seq<char>,
    extension: MetadataView,
    token_uri: Seq<char>,
) -> Msg {
    CosmosMsgView::Execute {
        contract_addr: nft_contract,
        msg: PayloadView::Mint(NftExecuteMsgView::Mint { token_id, owner, token_uri, extension }),
        funds: Seq::empty(),
        fee_deductions: 0,
    }
}

/// The forwarding of `funds`, as they are, to a beneficiary's own contract.
pub open spec fn deposit_msg(contract: Seq<char>, funds: Seq<CoinView>) -> Msg {
    CosmosMsgView::Execute {
        contract_addr: contract,
        msg: PayloadView::Deposit(FundDepositExecuteMsg::Deposit {  }),
        funds,
        fee_deductions: 0,
    }
}

/// One deposit for each line of the share table, of the line's portion of
/// `paid`, in the table's order.
pub open spec fn share_deposits(shares: Seq<FundShareView>, paid: CoinView) -> Seq<Msg> {
    Seq::new(
        shares.len(),
        |j: int|
            deposit_msg(
                shares[j].address,
                seq![
                    CoinView {
                        denom: paid.denom,
                        amount: shares[j].portion(paid.amount as nat) as u128,
                    },
                ],
            ),
    )
}

/// Every line's portion of `amount` fits in 128 bits.
pub open spec fn deposits_fit(shares: Seq<FundShareView>, amount: u128) -> bool {
    forall|j: int| 0 <= j < shares.len() ==> (#[trigger] shares[j]).portion(amount as nat)
        <= u128::MAX
}

/// The state that a contract starts in.
pub open spec fn initial_state(config: ConfigView) -> StateView {
    StateView { config, mint_status: MintStatus { mint_count: 0 } }
}

/// A change of configuration: for the administrator only.
pub open spec fn config_update_step(s: StateView, sender: Seq<char>, new_config: ConfigView) -> (
    StateView,
    Answer,
) {
    if sender != s.config.admin {
        (s, Err(ContractError::Unauthorized))
    } else {
        (StateView { config: new_config, ..s }, Ok(reply(Seq::empty(), Seq::empty())))
    }
}

/// A purchase: the first coin that came with the call must be the price, no
/// more and no less. The token gets the next number, which must be within
/// the limit; it is ordered for the caller, and the payment is forwarded
/// through the share table.
pub open spec fn mint_step(s: StateView, info: MessageInfoView) -> (StateView, Answer) {
    if info.funds.len() == 0 {
        (s, Err(ContractError::EmptyBalance))
    } else if s.config.price.denom != info.funds[0].denom || info.funds[0].amount
        != s.config.price.amount {
        (s, Err(ContractError::InsufficientFund))
    } else if s.mint_status.mint_count == u32::MAX {
        (s, Err(ContractError::ArithmeticFault))
    } else if s.mint_status.mint_count + 1 > s.config.mint_limit {
        (s, Err(ContractError::MintLimitReached))
    } else if !deposits_fit(s.config.shares, info.funds[0].amount) {
        (s, Err(ContractError::ArithmeticFault))
    } else {
        let token_id = (s.mint_status.mint_count + 1) as u32;
        (
            StateView { mint_status: MintStatus { mint_count: token_id }, ..s },
            Ok(
                reply(
                    seq![
                        mint_msg(
                            info.sender,
                            decimal(token_id as nat),
                            s.config.nft_contract,
                            s.config.nft_metadata,
                            Seq::empty(),
                        ),
                    ] + share_deposits(s.config.shares, info.funds[0]),
                    seq![
                        attr("action"@, "mint_nft_1"@),
                        attr("token_id"@, decimal(token_id as nat)),
                    ],
                ),
            ),
        )
    }
}

/// A mint without payment: for the administrator and the minter. The next
/// number is taken, whatever the limit, and reported.
pub open spec fn secure_mint_step(s: StateView, sender: Seq<char>) -> (StateView, Answer) {
    if !(sender == s.config.admin || sender == s.config.minter) {
        (s, Err(ContractError::Unauthorized))
    } else if s.mint_status.mint_count == u32::MAX {
        (s, Err(ContractError::ArithmeticFault))
    } else {
        let token_id = (s.mint_status.mint_count + 1) as u32;
        (
            StateView { mint_status: MintStatus { mint_count: token_id }, ..s },
            Ok(
                reply(
                    Seq::empty(),
                    seq![
                        attr("action"@, "secure_mint_nft"@),
                        attr("token_id"@, decimal(token_id as nat)),
                    ],
                ),
            ),
        )
    }
}

/// What a request does to the state, and the answer to it.
pub open spec fn execute_step(s: StateView, info: MessageInfoView, msg: ExecuteMsgView) -> (
    StateView,
    Answer,
) {
    match msg {
        ExecuteMsgView::ConfigUpdate { config } => config_update_step(s, info.sender, config),
        ExecuteMsgView::Mint => mint_step(s, info),
        ExecuteMsgView::SecureMint { .. } => secure_mint_step(s, info.sender),
    }
}

/// The answer to a query.
pub open spec fn query_answer(s: StateView, msg: QueryMsg) -> QueryResponseView {
    match msg {
        QueryMsg::Status {  } => QueryResponseView::Status(s.mint_status),
        QueryMsg::Config {  } => QueryResponseView::Config(s.config),
    }
}

/// Starts a contract with this configuration.
pub fn instantiate(_env: &Env, _info: &MessageInfo, msg: InstantiateMsg) -> (state: State)
    ensures
        state@ == initial_state(msg.config@),
{
    State { config: msg.config, mint_status: MintStatus { mint_count: 0 } }
}

/// Carries out a request.
pub fn execute(state: &mut State, env: &Env, info: &MessageInfo, msg: ExecuteMsg) -> (r: Result<
    Response<Payload>,
    ContractError,
>)
    ensures
        (final(state)@, outcome(r)) == execute_step(old(state)@, info@, msg@),
{
    match msg {
        ExecuteMsg::ConfigUpdate { config } => try_config_update(state, env, info, config),
        ExecuteMsg::Mint {  } => try_mint(state, env, info),
        ExecuteMsg::SecureMint { owner, token_uri, extension } => try_secure_mint(
            state,
            env,
            info,
            owner,
            token_uri,
            extension,
        ),
    }
}

/// The forwarding of `cns`, as they are, to a beneficiary's own contract.
pub fn deposit_funds(contract: String, cns: Vec<Coin>) -> (msg: CosmosMsg<Payload>)
    ensures
        msg@ == deposit_msg(contract@, cns.deep_view()),
{
    CosmosMsg::Execute {
        contract_addr: contract,
        msg: Payload::Deposit(FundDepositExecuteMsg::Deposit {  }),
        funds: cns,
        fee_deductions: 0,
    }
}

/// The order to mint token `token_id` for `to`.
pub fn mint_nft(
    to: String,
    token_id: String,
    nft_contract: String,
    extension: &Metadata,
    token_uri: String,
) -> (msg: CosmosMsg<Payload>)
    ensures
        msg@ == mint_msg(to@, token_id@, nft_contract@, extension@, token_uri@),
{
    let funds: Vec<Coin> = Vec::new();
    assert(funds.deep_view() =~= Seq::empty());
    CosmosMsg::Execute {
        contract_addr: nft_contract,
        msg: Payload::Mint(
            NftExecuteMsg::Mint { token_id, owner: to, token_uri, extension: extension.clone() },
        ),
        funds,
        fee_deductions: 0,
    }
}

/// Replaces the configuration, for the administrator.
pub fn try_config_update(
    state: &mut State,
    _env: &Env,
    info: &MessageInfo,
    new_config: Config,
) -> (r: Result<Response<Payload>, ContractError>)
    ensures
        (final(state)@, outcome(r)) == config_update_step(
            old(state)@,
            info.sender@,
            new_config@,
        ),
{
    if let Err(e) = require_admin(&info.sender, &state.config.admin) {
        return Err(e);
    }
    state.config = new_config;
    Ok(Response::new())
}

/// Sells the caller the next token at its price.
pub fn try_mint(state: &mut State, _env: &Env, info: &MessageInfo) -> (r: Result<
    Response<Payload>,
    ContractError,
>)
    ensures
        (final(state)@, outcome(r)) == mint_step(old(state)@, info@),
{
    if info.funds.len() == 0 {
        return Err(ContractError::EmptyBalance);
    }
    if !(state.config.price.denom == info.funds[0].denom) {
        return Err(ContractError::InsufficientFund);
    }
    let paid: u128 = info.funds[0].amount;
    if paid != state.config.price.amount {
        return Err(ContractError::InsufficientFund);
    }
    if state.mint_status.mint_count == u32::MAX {
        return Err(ContractError::ArithmeticFault);
    }
    let token_id: u32 = state.mint_status.mint_count + 1;
    if token_id > state.config.mint_limit {
        return Err(ContractError::MintLimitReached);
    }
    let submsg = mint_nft(
        info.sender.clone(),
        to_decimal(token_id as u128),
        state.config.nft_contract.clone(),
        &state.config.nft_metadata,
        String::new(),
    );
    let ghost shares = state@.config.shares;
    let ghost order = submsg@;
    let mut msgs: Vec<CosmosMsg<Payload>> = Vec::new();
    msgs.push(submsg);
    let n = state.config.shares.len();
    for j in 0..n
        invariant
            *state == *old(state),
            n == state.config.shares.len(),
            shares == state@.config.shares,
            info.funds.len() > 0,
            paid == info.funds[0].amount,
            info@.funds[0] == info.funds[0]@,
            msgs.deep_view() == seq![order] + share_deposits(
                shares.subrange(0, j as int),
                info@.funds[0],
            ),
            forall|b: int|
                0 <= b < j ==> (#[trigger] shares[b]).portion(paid as nat) <= u128::MAX,
            mint_step(old(state)@, info@) == if deposits_fit(shares, paid) {
                (
                    StateView { mint_status: MintStatus { mint_count: token_id }, ..old(state)@ },
                    Ok(
                        reply(
                            seq![order] + share_deposits(shares, info@.funds[0]),
                            seq![
                                attr("action"@, "mint_nft_1"@),
                                attr("token_id"@, decimal(token_id as nat)),
                            ],
                        ),
                    ),
                )
            } else {
                (old(state)@, Err(ContractError::ArithmeticFault))
            },
    {
        let fund_share = &state.config.shares[j];
        assert(shares[j as int] == fund_share@);
        if !fund_share.share_fits(paid) {
            return Err(ContractError::ArithmeticFault);
        }
        let amount = fund_share.get_share(paid);
        let mut cns: Vec<Coin> = Vec::new();
        cns.push(coin(amount, info.funds[0].denom.as_str()));
        assert(cns.deep_view() =~= seq![CoinView { denom: info@.funds[0].denom, amount }]);
        let ghost sent = msgs.deep_view();
        msgs.push(deposit_funds(fund_share.address.clone(), cns));
        assert(msgs.deep_view() =~= sent.push(
            deposit_msg(
                fund_share@.address,
                seq![CoinView { denom: info@.funds[0].denom, amount }],
            ),
        ));
    }
    assert(shares.subrange(0, n as int) =~= shares);
    state.mint_status.mint_count = token_id;
    let response = Response::new().add_messages(msgs).add_attribute(
        "action",
        "mint_nft_1".to_owned(),
    ).add_attribute("token_id", to_decimal(token_id as u128));
    proof {
        assert(response@.attributes =~= seq![
            attr("action"@, "mint_nft_1"@),
            attr("token_id"@, decimal(token_id as nat)),
        ]);
    }
    Ok(response)
}

/// Numbers the next token for the administrator or the minter, without
/// payment and whatever the limit. The answer reports the number and
/// dispatches nothing.
pub fn try_secure_mint(
    state: &mut State,
    _env: &Env,
    info: &MessageInfo,
    _owner: String,
    _token_uri: String,
    _extension: Metadata,
) -> (r: Result<Response<Payload>, ContractError>)
    ensures
        (final(state)@, outcome(r)) == secure_mint_step(old(state)@, info.sender@),
{
    if !(info.sender == state.config.admin || info.sender == state.config.minter) {
        return Err(ContractError::Unauthorized);
    }
    if state.mint_status.mint_count == u32::MAX {
        return Err(ContractError::ArithmeticFault);
    }
    let token_id: u32 = state.mint_status.mint_count + 1;
    state.mint_status.mint_count = token_id;
    let response = Response::new().add_attribute(
        "action",
        "secure_mint_nft".to_owned(),
    ).add_attribute("token_id", to_decimal(token_id as u128));
    assert(response@.attributes =~= seq![
        attr("action"@, "secure_mint_nft"@),
        attr("token_id"@, decimal(token_id as nat)),
    ]);
    Ok(response)
}

/// Keeps the state as it is.
pub fn migrate(_state: &State, _env: &Env, _msg: MigrateMsg) -> (r: Result<
    Response<Payload>,
    ContractError,
>)
    ensures
        outcome(r) == Ok::<ResponseView<PayloadView>, ContractError>(
            reply(Seq::empty(), Seq::empty()),
        ),
{
    Ok(Response::new())
}

/// Answers a query.
pub fn query(state: &State, env: &Env, msg: QueryMsg) -> (response: QueryResponse)
    ensures
        response@ == query_answer(state@, msg),
{
    match msg {
        QueryMsg::Status {  } => QueryResponse::Status(get_status(state, env)),
        QueryMsg::Config {  } => QueryResponse::Config(get_config(state, env)),
    }
}

/// How many tokens have been numbered.
pub fn get_status(state: &State, _env: &Env) -> (response: StatusResponse)
    ensures
        response.mint_status == state@.mint_status,
{
    StatusResponse { mint_status: state.mint_status }
}

/// The configuration.
pub fn get_config(state: &State, _env: &Env) -> (response: ConfigResponse)
    ensures
        response.config@ == state@.config,
{
    ConfigResponse { config: state.config.clone() }
}

} // verus!
