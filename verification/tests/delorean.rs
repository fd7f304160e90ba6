use delorean_contracts::delorean::contract::{
    execute, instantiate, migrate, query, try_claim_prize, try_degen_burn, try_mint,
    try_round_update, try_winners_update,
};
use delorean_contracts::delorean::msg::{
    ConfigResponse, Cw721ExecuteMsg, DegenInfoResponse, ExecuteMsg, FundDepositMsg,
    InstantiateMsg, MigrateMsg, Payload, QueryMsg, QueryResponse, RoundInfoResponse,
    SecureMintMsg, WinnersResponse,
};
use delorean_contracts::delorean::state::{
    Config, DegenInfo, FundShare, Metadata, NftMetaInfo, RoundInfo, State, WinnerInfo,
};
use delorean_contracts::errors::{ContractError, ErrorKind};
use delorean_contracts::host::{coin, Attribute, Coin, CosmosMsg, Env, MessageInfo, Response};
use delorean_contracts::mint::contract as mint_contract;
use delorean_contracts::mint::msg as mint_msg;
use delorean_contracts::mint::state as mint_state;

const NOW_NANOS: u64 = 1_571_797_419_879_305_533;
const NOW: u64 = NOW_NANOS / 1_000_000_000;

fn mock_env() -> Env {
    Env { time_nanos: NOW_NANOS, balance: coin(900000000u128, "uusd") }
}

fn env_at(seconds: u64) -> Env {
    Env { time_nanos: seconds * 1_000_000_000 + 999_999_999, balance: coin(900000000u128, "uusd") }
}

fn mock_info(sender: &str, funds: &[Coin]) -> MessageInfo {
    MessageInfo { sender: sender.to_string(), funds: funds.to_vec() }
}

fn named(name: &str) -> Metadata {
    Metadata {
        name: Some(String::from(name)),
        animation_url: None,
        attributes: None,
        background_color: None,
        youtube_url: None,
        description: None,
        image: None,
        image_data: None,
        external_url: None,
    }
}

fn share(address: &str, note: &str, share: u32) -> FundShare {
    FundShare { address: address.to_string(), note: note.to_string(), share }
}

fn sale_config() -> Config {
    Config {
        admin: "admin".to_string(),
        mint_contract: "xx1".to_string(),
        nft_contract: "xx2".to_string(),
        nfts: vec![
            NftMetaInfo {
                nft_metadata: named("NFT 1"),
                price: coin(150000000u128, "uusd"),
                shares: vec![share("user1", "treasury", 4000), share("user2", "team", 6000)],
            },
            NftMetaInfo {
                nft_metadata: named("NFT 2"),
                price: coin(75000000u128, "uusd"),
                shares: vec![share("user1", "treasury", 6000), share("user2", "team", 4000)],
            },
        ],
    }
}

fn sale() -> State {
    instantiate(&mock_env(), &mock_info("admin", &[]), InstantiateMsg { config: sale_config() })
}

fn winner(end: u64, claimed: bool) -> WinnerInfo {
    WinnerInfo {
        winner_address: "user1".to_string(),
        winner_amount: coin(700000000u128, "uusd"),
        claimed,
        claim_end_time: end,
    }
}

fn attribute(key: &str, value: &str) -> Attribute {
    Attribute { key: key.to_string(), value: value.to_string() }
}

fn burn(token_id: &str) -> CosmosMsg<Payload> {
    CosmosMsg::Execute {
        contract_addr: "xx2".to_string(),
        msg: Payload::Burn(Cw721ExecuteMsg::Burn { token_id: token_id.to_string() }),
        funds: vec![],
        fee_deductions: 0,
    }
}

fn deposit(to: &str, amount: u128) -> CosmosMsg<Payload> {
    CosmosMsg::Execute {
        contract_addr: to.to_string(),
        msg: Payload::Deposit(FundDepositMsg::Deposit {}),
        funds: vec![coin(amount, "uusd")],
        fee_deductions: 1,
    }
}

/// The answer to a query, with the wallets of the ledger in ascending order.
fn ascending(response: QueryResponse) -> QueryResponse {
    match response {
        QueryResponse::DegenInfo(DegenInfoResponse { mut wallets }) => {
            wallets.sort();
            QueryResponse::DegenInfo(DegenInfoResponse { wallets })
        }
        other => other,
    }
}

fn wallets(state: &State) -> Vec<String> {
    match ascending(query(state, &mock_env(), QueryMsg::DegenInfo {})) {
        QueryResponse::DegenInfo(DegenInfoResponse { wallets }) => wallets,
        other => panic!("not the ledger: {:?}", other),
    }
}

/// The minting contract that the sale contract orders from.
fn minting_contract_scenario() {
    let admin = String::from("admin");
    let treasury = String::from("tressury");
    let team_fund = String::from("team_fund");

    let admin_info = mock_info(&admin, &[]);
    let user1_info = mock_info(&String::from("user1"), &[coin(150000000u128, "uusd")]);

    let shares = [
        FundShare {
            address: team_fund.clone(),
            note: "".to_string(),
            share: 2000u32, //20.00
        },
        FundShare {
            address: treasury.clone(),
            note: "".to_string(),
            share: 8000u32, //40.00
        },
    ]
    .to_vec();

    let config = mint_state::Config {
        admin: admin,
        minter: String::from("minter"),
        nft_contract: String::from("nft_contract"),
        nft_metadata: Metadata {
            name: Some(String::from("NFT 1")),
            animation_url: None,
            attributes: None,
            background_color: None,
            youtube_url: None,
            description: None,
            image: None,
            image_data: None,
            external_url: None,
        },
        shares: shares.to_vec(),
        price: coin(150000000u128, "uusd"),
        mint_limit: 4u32,
    };

    let instatiate_msg = mint_msg::InstantiateMsg { config: config.clone() };

    let mut deps = mint_contract::instantiate(&mock_env(), &admin_info, instatiate_msg);
    let rsp = mint_contract::query(&deps, &mock_env(), mint_msg::QueryMsg::Config {});
    assert_eq!(rsp, mint_msg::QueryResponse::Config(mint_msg::ConfigResponse { config: config.clone() }));

    let update_config_msg = mint_msg::ExecuteMsg::ConfigUpdate { config: config.clone() };
    let rsp = mint_contract::execute(&mut deps, &mock_env(), &user1_info, update_config_msg.clone());
    assert_eq!(rsp.is_err(), true);

    let rsp = mint_contract::execute(&mut deps, &mock_env(), &admin_info, update_config_msg.clone());
    assert_eq!(rsp.is_err(), false);

    let rsp = mint_contract::execute(&mut deps, &mock_env(), &user1_info, mint_msg::ExecuteMsg::Mint {});
    assert_eq!(rsp.is_err(), false);
    assert_eq!(
        rsp.clone().unwrap().attributes,
        [
            Attribute { key: String::from("action"), value: String::from("mint_nft_1") },
            Attribute { key: String::from("token_id"), value: String::from("1") }
        ]
    );

    let rsp = mint_contract::execute(&mut deps, &mock_env(), &user1_info, mint_msg::ExecuteMsg::Mint {});
    assert_eq!(rsp.is_err(), false);
    assert_eq!(
        rsp.clone().unwrap().attributes,
        [
            Attribute { key: String::from("action"), value: String::from("mint_nft_1") },
            Attribute { key: String::from("token_id"), value: String::from("2") }
        ]
    );

    let rsp = mint_contract::execute(&mut deps, &mock_env(), &user1_info, mint_msg::ExecuteMsg::Mint {});
    assert_eq!(rsp.is_err(), false);
    assert_eq!(
        rsp.clone().unwrap().attributes,
        [
            Attribute { key: String::from("action"), value: String::from("mint_nft_1") },
            Attribute { key: String::from("token_id"), value: String::from("3") }
        ]
    );

    let rsp = mint_contract::execute(&mut deps, &mock_env(), &user1_info, mint_msg::ExecuteMsg::Mint {});
    assert_eq!(rsp.is_err(), false);
    assert_eq!(
        rsp.clone().unwrap().attributes,
        [
            Attribute { key: String::from("action"), value: String::from("mint_nft_1") },
            Attribute { key: String::from("token_id"), value: String::from("4") }
        ]
    );

    let rsp = mint_contract::execute(&mut deps, &mock_env(), &user1_info, mint_msg::ExecuteMsg::Mint {});
    assert_eq!(rsp.is_err(), true);

    let rsp = mint_contract::execute(
        &mut deps,
        &mock_env(),
        &admin_info,
        mint_msg::ExecuteMsg::SecureMint {
            owner: "user1".to_string(),
            token_uri: "".to_string(),
            extension: config.nft_metadata.clone(),
        },
    );
    assert_eq!(rsp.is_err(), false);
    assert_eq!(
        rsp.clone().unwrap().attributes,
        [
            Attribute { key: String::from("action"), value: String::from("secure_mint_nft") },
            Attribute { key: String::from("token_id"), value: String::from("5") }
        ]
    );

    let rsp = mint_contract::execute(
        &mut deps,
        &mock_env(),
        &user1_info,
        mint_msg::ExecuteMsg::SecureMint {
            owner: "user1".to_string(),
            token_uri: "".to_string(),
            extension: config.nft_metadata.clone(),
        },
    );
    assert_eq!(rsp.is_err(), true);
}

#[test]
fn integration_delorean_distributer_test() {
    sale_contract_scenario();
    minting_contract_scenario();
}

/// The sale contract.
fn sale_contract_scenario() {
    let admin = String::from("admin");
    let user1 = String::from("user1");
    let user2 = String::from("user2");

    let admin_info = mock_info(&admin, &[coin(150000u128, "uusd")]);
    let mut user1_info = mock_info(&String::from("user1"), &[coin(10000u128, "uusd")]);
    let mut user2_info = mock_info(&String::from("user2"), &[coin(10000u128, "uusd")]);

    let config = Config {
        admin: admin.clone(),
        mint_contract: "xx1".to_string(),
        nft_contract: "xx2".to_string(),
        nfts: vec![
            NftMetaInfo {
                nft_metadata: Metadata {
                    name: Some(String::from("NFT 1")),
                    animation_url: None,
                    attributes: None,
                    background_color: None,
                    youtube_url: None,
                    description: None,
                    image: None,
                    image_data: None,
                    external_url: None,
                },
                price: coin(150000000u128, "uusd"),
                shares: vec![
                    FundShare {
                        address: user1.clone(),
                        note: "treasury".to_string(),
                        share: 4000u32,
                    },
                    FundShare { address: user2.clone(), note: "team".to_string(), share: 6000u32 },
                ],
            },
            NftMetaInfo {
                nft_metadata: Metadata {
                    name: Some(String::from("NFT 2")),
                    animation_url: None,
                    attributes: None,
                    background_color: None,
                    youtube_url: None,
                    description: None,
                    image: None,
                    image_data: None,
                    external_url: None,
                },
                price: coin(75000000u128, "uusd"),
                shares: vec![
                    FundShare {
                        address: user1.clone(),
                        note: "treasury".to_string(),
                        share: 6000u32,
                    },
                    FundShare { address: user2.clone(), note: "team".to_string(), share: 4000u32 },
                ],
            },
        ],
    };

    let instatiate_msg = InstantiateMsg { config: config.clone() };

    let mut deps = instantiate(&mock_env(), &admin_info, instatiate_msg);
    let rsp = query(&deps, &mock_env(), QueryMsg::Config {});
    assert_eq!(
        rsp,
        QueryResponse::Config(ConfigResponse { config: config.clone() }),
        "Config updated successfully"
    );

    let update_config_msg = ExecuteMsg::ConfigUpdate { config: config.clone() };
    let rsp = execute(&mut deps, &mock_env(), &user1_info, update_config_msg);
    assert_eq!(
        rsp.unwrap_err().to_string(),
        "Unauthorized",
        "Config update should faill on unauthorized access"
    );

    let rsp = execute(
        &mut deps,
        &mock_env(),
        &admin_info,
        ExecuteMsg::ConfigUpdate { config: config.clone() },
    );
    assert_eq!(rsp.is_err(), false, "Config update should pass on authorized access");

    let rsp = migrate(&deps, &mock_env(), MigrateMsg {});
    assert_eq!(rsp.is_err(), false, "Migrate should work");

    let rsp = execute(&mut deps, &mock_env(), &user1_info, ExecuteMsg::Mint { nft_type: 1 });
    assert_eq!(
        rsp.unwrap_err().to_string(),
        "InsufficientFund",
        "InsufficientFund test on mint of nft 1"
    );

    user1_info.funds = [coin(150000000u128, "uusd")].to_vec();
    let rsp = execute(&mut deps, &mock_env(), &user1_info, ExecuteMsg::Mint { nft_type: 1 });
    assert_eq!(rsp.is_err(), false, "Mint with sufficient fund passes for nft 1");

    let rsp = execute(&mut deps, &mock_env(), &user2_info, ExecuteMsg::Mint { nft_type: 2 });
    assert_eq!(rsp.is_err(), true, "InsufficientFund test on mint of nft 2");

    user2_info.funds = [coin(75000000u128, "uusd")].to_vec();
    let rsp = execute(&mut deps, &mock_env(), &user2_info, ExecuteMsg::Mint { nft_type: 2 });
    assert_eq!(rsp.is_err(), false, "Mint with sufficient fund passes for nft 2");

    let rsp = execute(
        &mut deps,
        &mock_env(),
        &user2_info,
        ExecuteMsg::ClaimPrize { burn_nft_id: "1".to_string() },
    );
    assert_eq!(
        rsp.unwrap_err().to_string(),
        "NotFound",
        "Claim prize should not work if winner not set"
    );

    let rsp = execute(
        &mut deps,
        &mock_env(),
        &user1_info,
        ExecuteMsg::WinnerUpdate {
            winner: WinnerInfo {
                winner_address: "user1".to_string(),
                winner_amount: coin(700000000u128, "uusd"),
                claimed: false,
                claim_end_time: (mock_env().time_nanos / 1_000_000_000) - 100000,
            },
        },
    );
    assert_eq!(rsp.is_err(), true, "Set winner should fail for not authrozied wallet");

    let rsp = execute(
        &mut deps,
        &mock_env(),
        &user1_info,
        ExecuteMsg::RoundUpdate {
            round_info: RoundInfo {
                active: true,
                start_date: (mock_env().time_nanos / 1_000_000_000) - 100000,
                name: "Day 1".to_string(),
                end_date: (mock_env().time_nanos / 1_000_000_000) - 100000,
            },
        },
    );
    assert_eq!(
        rsp.unwrap_err().to_string(),
        "Unauthorized",
        "Round update should fail for not authrozied wallet"
    );

    let rsp = execute(
        &mut deps,
        &mock_env(),
        &admin_info,
        ExecuteMsg::WinnerUpdate {
            winner: WinnerInfo {
                winner_address: "user1".to_string(),
                winner_amount: coin(700000000u128, "uusd"),
                claimed: false,
                claim_end_time: (mock_env().time_nanos / 1_000_000_000) - 100000,
            },
        },
    );
    assert_eq!(rsp.is_err(), false, "Winner update should work for authrozied wallet");

    let rsp = execute(
        &mut deps,
        &mock_env(),
        &user1_info,
        ExecuteMsg::ClaimPrize { burn_nft_id: "1".to_string() },
    );
    assert_eq!(
        rsp.unwrap_err().to_string(),
        "Unauthorized",
        "Claim prize should fail for expired time"
    );

    let _rsp = execute(
        &mut deps,
        &mock_env(),
        &admin_info,
        ExecuteMsg::WinnerUpdate {
            winner: WinnerInfo {
                winner_address: "user1".to_string(),
                winner_amount: coin(700000000u128, "uusd"),
                claimed: true,
                claim_end_time: (mock_env().time_nanos / 1_000_000_000) + 1000,
            },
        },
    );
    let rsp = execute(
        &mut deps,
        &mock_env(),
        &user1_info,
        ExecuteMsg::ClaimPrize { burn_nft_id: "1".to_string() },
    );
    assert_eq!(
        rsp.unwrap_err().to_string(),
        "Unauthorized",
        "Claim prize should fail for already claimed"
    );

    let _rsp = execute(
        &mut deps,
        &mock_env(),
        &admin_info,
        ExecuteMsg::WinnerUpdate {
            winner: WinnerInfo {
                winner_address: "user1".to_string(),
                winner_amount: coin(700000000u128, "uusd"),
                claimed: false,
                claim_end_time: (mock_env().time_nanos / 1_000_000_000) + 1000,
            },
        },
    );
    let rsp = execute(
        &mut deps,
        &mock_env(),
        &user1_info,
        ExecuteMsg::ClaimPrize { burn_nft_id: "1".to_string() },
    );
    assert_eq!(rsp.is_err(), false, "Claim prize should work");

    let rsp = execute(
        &mut deps,
        &mock_env(),
        &user1_info,
        ExecuteMsg::Degen { burn_nft_id: "1".to_string() },
    );
    assert_eq!(rsp.is_err(), false, "Degen should work 1");

    let rsp = execute(
        &mut deps,
        &mock_env(),
        &user2_info,
        ExecuteMsg::Degen { burn_nft_id: "1".to_string() },
    );
    assert_eq!(rsp.is_err(), false, "Degen should work 2");

    let rsp = ascending(query(&deps, &mock_env(), QueryMsg::DegenInfo {}));
    assert_eq!(
        rsp,
        QueryResponse::DegenInfo(DegenInfoResponse {
            wallets: vec!["user1".to_string(), "user2".to_string()],
        }),
        "Degen info response should work with proper response"
    );

    let rsp = execute(
        &mut deps,
        &mock_env(),
        &admin_info,
        ExecuteMsg::RoundUpdate {
            round_info: RoundInfo {
                active: true,
                start_date: (mock_env().time_nanos / 1_000_000_000) - 100000,
                name: "Day 1".to_string(),
                end_date: (mock_env().time_nanos / 1_000_000_000) - 100000,
            },
        },
    );
    assert_eq!(
        rsp.is_err(),
        false,
        "Round update should pass with funds moving to different wallets"
    );

    let rsp = query(&deps, &mock_env(), QueryMsg::DegenInfo {});
    assert_eq!(
        rsp,
        QueryResponse::DegenInfo(DegenInfoResponse { wallets: vec![] }),
        "Degen info response should be blank after round is updated"
    );
}

#[test]
fn claim_at_the_deadline_is_refused_and_one_second_before_it_is_paid() {
    let mut state = sale();
    let admin = mock_info("admin", &[]);
    let user1 = mock_info("user1", &[]);
    let end = NOW + 1000;
    try_winners_update(&mut state, &mock_env(), &admin, winner(end, false)).unwrap();

    let late = try_claim_prize(&mut state, &env_at(end), &user1, "7".to_string());
    assert_eq!(late, Err(ContractError::Unauthorized));
    assert_eq!(state.winner_info, Some(winner(end, false)));

    let later = try_claim_prize(&mut state, &env_at(end + 1), &user1, "7".to_string());
    assert_eq!(later, Err(ContractError::Unauthorized));

    let in_time = try_claim_prize(&mut state, &env_at(end - 1), &user1, "7".to_string());
    assert_eq!(
        in_time,
        Ok(Response {
            messages: vec![
                CosmosMsg::Send {
                    to_address: "user1".to_string(),
                    amount: coin(700000000u128, "uusd"),
                    fee_deductions: 1,
                },
                burn("7"),
            ],
            attributes: vec![attribute("action", "winner_prize_claim")],
        })
    );
    assert_eq!(state.winner_info, Some(winner(end, true)));

    let again = try_claim_prize(&mut state, &env_at(end - 1), &user1, "8".to_string());
    assert_eq!(again, Err(ContractError::Unauthorized));
}

#[test]
fn set_winner_is_for_the_administrator_and_the_prize_for_the_winner() {
    let mut state = sale();
    let r = try_winners_update(
        &mut state,
        &mock_env(),
        &mock_info("user2", &[]),
        winner(NOW + 1000, false),
    );
    assert_eq!(r, Err(ContractError::Unauthorized));
    assert_eq!(ContractError::Unauthorized.kind(), ErrorKind::Unauthorized);
    assert_eq!(state.winner_info, None);

    let r = try_winners_update(
        &mut state,
        &mock_env(),
        &mock_info("admin", &[]),
        winner(NOW + 1000, false),
    );
    assert_eq!(
        r,
        Ok(Response { messages: vec![], attributes: vec![attribute("action", "winner_update")] })
    );

    let r = try_claim_prize(&mut state, &mock_env(), &mock_info("user2", &[]), "1".to_string());
    assert_eq!(r, Err(ContractError::Unauthorized));
    assert_eq!(state.winner_info, Some(winner(NOW + 1000, false)));
    assert_eq!(
        query(&state, &mock_env(), QueryMsg::Winners {}),
        QueryResponse::Winners(WinnersResponse { winner: Some(winner(NOW + 1000, false)) })
    );
}

#[test]
fn a_new_winner_replaces_an_unclaimed_one() {
    let mut state = sale();
    let admin = mock_info("admin", &[]);
    try_winners_update(&mut state, &mock_env(), &admin, winner(NOW + 1000, false)).unwrap();
    let mut next = winner(NOW + 5, false);
    next.winner_address = "user2".to_string();
    try_winners_update(&mut state, &mock_env(), &admin, next.clone()).unwrap();
    assert_eq!(state.winner_info, Some(next));
    let r = try_claim_prize(&mut state, &mock_env(), &mock_info("user1", &[]), "1".to_string());
    assert_eq!(r, Err(ContractError::Unauthorized));
}

#[test]
fn mint_takes_the_exact_price() {
    let mut state = sale();
    let buyer = mock_info("user1", &[coin(150_000_000, "uusd")]);
    let r = try_mint(&mut state, &mock_env(), &buyer, 1);
    assert_eq!(
        r,
        Ok(Response {
            messages: vec![CosmosMsg::Execute {
                contract_addr: "xx1".to_string(),
                msg: Payload::SecureMint(SecureMintMsg::SecureMint {
                    owner: "user1".to_string(),
                    token_uri: "".to_string(),
                    extension: named("NFT 1"),
                }),
                funds: vec![],
                fee_deductions: 0,
            }],
            attributes: vec![attribute("action", "mint"), attribute("nft", "1")],
        })
    );
    assert_eq!(state.nft2_funds, 0);

    let short = mock_info("user1", &[coin(149_999_999, "uusd")]);
    let r = try_mint(&mut state, &mock_env(), &short, 1);
    assert_eq!(r, Err(ContractError::InsufficientFund));
    assert_eq!(ContractError::InsufficientFund.kind(), ErrorKind::InvalidFunds);

    let over = mock_info("user1", &[coin(150_000_001, "uusd")]);
    assert_eq!(try_mint(&mut state, &mock_env(), &over, 1), Err(ContractError::InsufficientFund));
}

#[test]
fn mint_of_the_second_product_fills_the_sub_pool() {
    let mut state = sale();
    let buyer = mock_info("user2", &[coin(75_000_000, "uusd")]);
    let r = try_mint(&mut state, &mock_env(), &buyer, 2).unwrap();
    assert_eq!(r.attributes, vec![attribute("action", "mint"), attribute("nft", "2")]);
    assert_eq!(state.nft2_funds, 75_000_000);
    try_mint(&mut state, &mock_env(), &buyer, 2).unwrap();
    assert_eq!(state.nft2_funds, 150_000_000);
}

#[test]
fn mint_refuses_what_is_not_on_sale_or_not_paid() {
    let mut state = sale();
    let paid = mock_info("user1", &[coin(150_000_000, "uusd")]);
    assert_eq!(try_mint(&mut state, &mock_env(), &paid, 0), Err(ContractError::ArithmeticFault));
    assert_eq!(try_mint(&mut state, &mock_env(), &paid, 3), Err(ContractError::Unauthorized));
    let unpaid = mock_info("user1", &[]);
    assert_eq!(try_mint(&mut state, &mock_env(), &unpaid, 1), Err(ContractError::EmptyBalance));
    assert_eq!(try_mint(&mut state, &mock_env(), &unpaid, 3), Err(ContractError::Unauthorized));
    let other = mock_info("user1", &[coin(150_000_000, "uluna")]);
    assert_eq!(try_mint(&mut state, &mock_env(), &other, 1), Err(ContractError::InsufficientFund));
    assert_eq!(state, sale());
}

#[test]
fn sub_pool_beyond_128_bits_is_an_arithmetic_fault() {
    let mut state = sale();
    state.nft2_funds = u128::MAX - 74_999_999;
    let buyer = mock_info("user2", &[coin(75_000_000, "uusd")]);
    assert_eq!(try_mint(&mut state, &mock_env(), &buyer, 2), Err(ContractError::ArithmeticFault));
    assert_eq!(state.nft2_funds, u128::MAX - 74_999_999);
}

fn day_one() -> RoundInfo {
    RoundInfo { active: true, start_date: NOW - 100000, end_date: NOW - 100000, name: "Day 1".to_string() }
}

#[test]
fn round_update_pays_both_pools_and_resets() {
    let mut state = sale();
    let buyer = mock_info("user2", &[coin(75_000_000, "uusd")]);
    try_mint(&mut state, &mock_env(), &buyer, 2).unwrap();
    try_degen_burn(&mut state, &mock_env(), &mock_info("user2", &[]), "4".to_string()).unwrap();
    try_degen_burn(&mut state, &mock_env(), &mock_info("user1", &[]), "5".to_string()).unwrap();
    assert_eq!(wallets(&state), vec!["user1".to_string(), "user2".to_string()]);

    let r = try_round_update(&mut state, &mock_env(), &mock_info("admin", &[]), day_one());
    assert_eq!(
        r,
        Ok(Response {
            messages: vec![
                deposit("user1", 330_000_000),
                deposit("user2", 495_000_000),
                deposit("user1", 45_000_000),
                deposit("user2", 30_000_000),
            ],
            attributes: vec![attribute("action", "round_update")],
        })
    );
    assert_eq!(state.nft2_funds, 0);
    assert_eq!(state.degen_info, DegenInfo::new());
    assert_eq!(wallets(&state), Vec::<String>::new());
    assert_eq!(
        query(&state, &mock_env(), QueryMsg::RoundInfo {}),
        QueryResponse::RoundInfo(RoundInfoResponse { round: Some(day_one()) })
    );
}

#[test]
fn round_update_rounds_each_portion_down() {
    let mut state = sale();
    state.nft2_funds = 11;
    let env = Env { time_nanos: NOW_NANOS, balance: coin(1010, "uusd") };
    let r = try_round_update(&mut state, &env, &mock_info("admin", &[]), day_one()).unwrap();
    assert_eq!(
        r.messages,
        vec![deposit("user1", 399), deposit("user2", 599), deposit("user1", 6), deposit("user2", 4)]
    );
    let carried: u128 = r
        .messages
        .iter()
        .map(|message| match message {
            CosmosMsg::Execute { funds, .. } => funds.iter().map(|coin| coin.amount).sum(),
            CosmosMsg::Send { amount, .. } => amount.amount,
        })
        .sum();
    assert_eq!(carried, 1008);
    assert!(carried <= env.balance.amount);
}

#[test]
fn every_product_after_the_first_is_paid_from_the_sub_pool() {
    let mut config = sale_config();
    let third = config.nfts[1].clone();
    config.nfts.push(third);
    let mut state =
        instantiate(&mock_env(), &mock_info("admin", &[]), InstantiateMsg { config });
    state.nft2_funds = 100;
    let env = Env { time_nanos: NOW_NANOS, balance: coin(1100, "uusd") };
    let r = try_round_update(&mut state, &env, &mock_info("admin", &[]), day_one()).unwrap();
    assert_eq!(
        r.messages,
        vec![
            deposit("user1", 400),
            deposit("user2", 600),
            deposit("user1", 60),
            deposit("user2", 40),
            deposit("user1", 60),
            deposit("user2", 40),
        ]
    );
}

#[test]
fn round_update_without_products_only_resets() {
    let mut config = sale_config();
    config.nfts.clear();
    let mut state =
        instantiate(&mock_env(), &mock_info("admin", &[]), InstantiateMsg { config });
    state.nft2_funds = 9;
    let r = try_round_update(&mut state, &mock_env(), &mock_info("admin", &[]), day_one());
    assert_eq!(
        r,
        Ok(Response { messages: vec![], attributes: vec![attribute("action", "round_update")] })
    );
    assert_eq!(state.nft2_funds, 0);
}

#[test]
fn round_update_is_for_the_administrator() {
    let mut state = sale();
    state.nft2_funds = 5;
    try_degen_burn(&mut state, &mock_env(), &mock_info("user1", &[]), "5".to_string()).unwrap();
    let before = state.clone();
    let r = try_round_update(&mut state, &mock_env(), &mock_info("user1", &[]), day_one());
    assert_eq!(r, Err(ContractError::Unauthorized));
    assert_eq!(state, before);
}

#[test]
fn round_update_with_a_sub_pool_beyond_the_balance_is_an_arithmetic_fault() {
    let mut state = sale();
    state.nft2_funds = 900_000_001;
    let before = state.clone();
    let r = try_round_update(&mut state, &mock_env(), &mock_info("admin", &[]), day_one());
    assert_eq!(r, Err(ContractError::ArithmeticFault));
    assert_eq!(state, before);
}

#[test]
fn round_update_with_a_portion_beyond_128_bits_is_an_arithmetic_fault() {
    let mut config = sale_config();
    config.nfts[1].shares[1].share = 4_000_000_000;
    let mut state =
        instantiate(&mock_env(), &mock_info("admin", &[]), InstantiateMsg { config });
    state.nft2_funds = u128::MAX / 2;
    let env = Env { time_nanos: NOW_NANOS, balance: coin(u128::MAX / 2, "uusd") };
    let before = state.clone();
    let r = try_round_update(&mut state, &env, &mock_info("admin", &[]), day_one());
    assert_eq!(r, Err(ContractError::ArithmeticFault));
    assert_eq!(state, before);
}

#[test]
fn burn_for_participation_records_each_wallet_once() {
    let mut state = sale();
    let user1 = mock_info("user1", &[]);
    let r = try_degen_burn(&mut state, &mock_env(), &user1, "12".to_string());
    assert_eq!(
        r,
        Ok(Response {
            messages: vec![burn("12")],
            attributes: vec![attribute("action", "burn_nft"), attribute("id", "12")],
        })
    );
    try_degen_burn(&mut state, &mock_env(), &user1, "13".to_string()).unwrap();
    try_degen_burn(&mut state, &mock_env(), &mock_info("user2", &[]), "14".to_string()).unwrap();
    assert_eq!(wallets(&state), vec!["user1".to_string(), "user2".to_string()]);
    assert!(state.degen_info.contains(&"user1".to_string()));
    assert!(!state.degen_info.contains(&"admin".to_string()));
}
