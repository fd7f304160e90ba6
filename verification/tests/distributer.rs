use delorean_contracts::distributer::contract::{
    execute, get_claim_status, instantiate, migrate, query, try_claim, try_config_update,
    try_deposit,
};
use delorean_contracts::distributer::msg::{
    ClaimStatusResponse, ConfigResponse, ExecuteMsg, InstantiateMsg, MigrateMsg, QueryMsg,
    QueryResponse,
};
use delorean_contracts::distributer::state::{ClaimState, Config, FundShare, State};
use delorean_contracts::errors::{ContractError, ErrorKind};
use delorean_contracts::host::{coin, Attribute, Coin, CosmosMsg, Env, MessageInfo, Response};

fn mock_env() -> Env {
    Env { time_nanos: 1_571_797_419_879_305_533, balance: coin(0, "uusd") }
}

fn mock_info(sender: &str, funds: &[Coin]) -> MessageInfo {
    MessageInfo { sender: sender.to_string(), funds: funds.to_vec() }
}

fn share(address: &str, share: u32) -> FundShare {
    FundShare { address: address.to_string(), note: "".to_string(), share }
}

fn status(state: &State, wallet: &str) -> ClaimStatusResponse {
    get_claim_status(state, &mock_env(), wallet.to_string()).unwrap()
}

fn payout(response: &Response<()>) -> u128 {
    assert_eq!(response.messages.len(), 1);
    match &response.messages[0] {
        CosmosMsg::Send { amount, .. } => amount.amount,
        CosmosMsg::Execute { .. } => panic!("a claim executes no contract"),
    }
}

fn attribute(key: &str, value: &str) -> Attribute {
    Attribute { key: key.to_string(), value: value.to_string() }
}

#[test]
fn delorean_distributer_test() {
    let admin = String::from("admin");
    let user1 = String::from("user1");
    let user2 = String::from("user2");

    let admin_info = mock_info(&admin, &[coin(150000u128, "uusd")]);
    let user1_info = mock_info(&String::from("user1"), &[coin(10000u128, "uusd")]);

    let shares = [
        FundShare {
            address: user1.clone(),
            note: "".to_string(),
            share: 2000u32, //20.00
        },
        FundShare {
            address: user2.clone(),
            note: "".to_string(),
            share: 4000u32, //40.00
        },
    ]
    .to_vec();

    let config = Config { admin: admin.clone(), shares: shares.clone() };

    let instatiate_msg = InstantiateMsg { config: config.clone() };

    let mut deps = instantiate(&mock_env(), &admin_info, instatiate_msg);
    let rsp = query(&deps, &mock_env(), QueryMsg::Config {}).unwrap();
    assert_eq!(rsp, QueryResponse::Config(ConfigResponse { config: config.clone() }));

    let update_config_msg = ExecuteMsg::ConfigUpdate { config: config.clone() };
    let rsp = execute(&mut deps, &mock_env(), &user1_info, update_config_msg);
    assert_eq!(rsp.is_err(), true);

    let rsp = execute(
        &mut deps,
        &mock_env(),
        &mock_info(&user1, &[coin(100_000_000u128, "uusd")]),
        ExecuteMsg::Deposit {},
    );
    assert_eq!(rsp.is_err(), false);

    let rsp = migrate(&deps, &mock_env(), MigrateMsg {});
    assert_eq!(rsp.is_err(), false);

    let rsp = query(&deps, &mock_env(), QueryMsg::ClaimStatus { wallet: user1.clone() }).unwrap();
    let expected = ClaimStatusResponse {
        claimable_ust: 20_000_000u128,
        claimed_ust: Some(0),
        total_ust: 100_000_000u128,
        share: 2000u32,
    };
    assert_eq!(
        rsp,
        QueryResponse::ClaimStatus(expected),
        "Claimable UST of user 1 should match rsp={:?}",
        expected
    );

    let rsp = query(&deps, &mock_env(), QueryMsg::ClaimStatus { wallet: user2.clone() }).unwrap();
    let expected = ClaimStatusResponse {
        claimable_ust: 40_000_000u128,
        claimed_ust: Some(0),
        total_ust: 100_000_000u128,
        share: 4000u32,
    };
    assert_eq!(
        rsp,
        QueryResponse::ClaimStatus(expected),
        "Claimable UST of user 2 should match rsp={:?}",
        expected
    );

    let rsp = execute(&mut deps, &mock_env(), &mock_info(&user1, &[]), ExecuteMsg::Claim {});
    assert_eq!(rsp.is_err(), false, "User 1 should be able to claim");

    assert_eq!(
        rsp.unwrap().attributes,
        [
            Attribute { key: "action".to_string(), value: "claim".to_string() },
            Attribute { key: "ust".to_string(), value: "20000000".to_string() },
            Attribute { key: "wallet".to_string(), value: "user1".to_string() }
        ]
        .to_vec(),
        "User 1 should have 2000 ust in the wallet after claim"
    );

    // The baseline of a wallet that claimed is the pool size at its claim.
    let rsp = query(&deps, &mock_env(), QueryMsg::ClaimStatus { wallet: user1.clone() }).unwrap();
    let expected = ClaimStatusResponse {
        claimable_ust: 0u128,
        claimed_ust: Some(100_000_000u128),
        total_ust: 100_000_000u128,
        share: 2000u32,
    };
    assert_eq!(
        rsp,
        QueryResponse::ClaimStatus(expected),
        "Claimable UST of user 1 after first claim should match of rsp={:?}",
        expected
    );

    let rsp = execute(
        &mut deps,
        &mock_env(),
        &mock_info(&admin, &[coin(100_000_000u128, "uusd")]),
        ExecuteMsg::Deposit {},
    );
    assert_eq!(rsp.is_err(), false);

    let rsp = query(&deps, &mock_env(), QueryMsg::ClaimStatus { wallet: user1.clone() }).unwrap();
    let expected = ClaimStatusResponse {
        claimable_ust: 20_000_000u128,
        claimed_ust: Some(100_000_000u128),
        total_ust: 200_000_000u128,
        share: 2000u32,
    };
    assert_eq!(
        rsp,
        QueryResponse::ClaimStatus(expected),
        "Claimable UST of user 1 after 2nd deposit should match rsp={:?}",
        expected
    );

    let rsp = query(&deps, &mock_env(), QueryMsg::ClaimStatus { wallet: user2.clone() }).unwrap();
    let expected = ClaimStatusResponse {
        claimable_ust: 80_000_000u128,
        claimed_ust: Some(0u128),
        total_ust: 200_000_000u128,
        share: 4000u32,
    };
    assert_eq!(
        rsp,
        QueryResponse::ClaimStatus(expected),
        "Claimable UST of user 2 after 2nd deposit should match rsp={:?}",
        expected
    );

    let rsp = execute(&mut deps, &mock_env(), &mock_info(&user1, &[]), ExecuteMsg::Claim {});
    assert_eq!(rsp.is_err(), false, "User 1 should be able to claim 2nd time");

    assert_eq!(
        rsp.unwrap().attributes,
        [
            Attribute { key: "action".to_string(), value: "claim".to_string() },
            Attribute { key: "ust".to_string(), value: "20000000".to_string() },
            Attribute { key: "wallet".to_string(), value: "user1".to_string() }
        ]
        .to_vec(),
        "User 1 should have 2000 ust in the wallet after claim"
    );

    let rsp = query(&deps, &mock_env(), QueryMsg::ClaimStatus { wallet: user1.clone() }).unwrap();
    let expected = ClaimStatusResponse {
        claimable_ust: 0u128,
        claimed_ust: Some(200_000_000u128),
        total_ust: 200_000_000u128,
        share: 2000u32,
    };
    assert_eq!(
        rsp,
        QueryResponse::ClaimStatus(expected),
        "Claimable UST of user 2 after 2nd deposit should match rsp={:?}",
        expected
    );
}

fn two_shares() -> State {
    let config = Config { admin: "admin".to_string(), shares: vec![share("A", 2000), share("B", 4000)] };
    instantiate(&mock_env(), &mock_info("admin", &[]), InstantiateMsg { config })
}

fn deposit(state: &mut State, amount: u128) {
    try_deposit(state, &mock_env(), &mock_info("anyone", &[coin(amount, "uusd")])).unwrap();
}

#[test]
fn lazy_settlement_scenario() {
    let mut state = two_shares();
    deposit(&mut state, 10_000);
    assert_eq!(status(&state, "A").claimable_ust, 2000);
    assert_eq!(status(&state, "B").claimable_ust, 4000);

    let paid = try_claim(&mut state, &mock_env(), &mock_info("A", &[])).unwrap();
    assert_eq!(payout(&paid), 2000);
    assert_eq!(status(&state, "A").claimable_ust, 0);

    deposit(&mut state, 6_000);
    assert_eq!(state.fund_state, 16_000);
    assert_eq!(status(&state, "A").claimable_ust, 1200);
    assert_eq!(status(&state, "B").claimable_ust, 6400);
}

#[test]
fn claim_answers_with_one_transfer_less_one_fee() {
    let mut state = two_shares();
    deposit(&mut state, 10_000);
    let response = try_claim(&mut state, &mock_env(), &mock_info("B", &[])).unwrap();
    assert_eq!(
        response,
        Response {
            messages: vec![CosmosMsg::Send {
                to_address: "B".to_string(),
                amount: coin(4000, "uusd"),
                fee_deductions: 1,
            }],
            attributes: vec![
                attribute("action", "claim"),
                attribute("ust", "4000"),
                attribute("wallet", "B"),
            ],
        }
    );
}

#[test]
fn second_claim_without_deposit_pays_nothing() {
    let mut state = two_shares();
    deposit(&mut state, 12_345);
    let first = try_claim(&mut state, &mock_env(), &mock_info("A", &[])).unwrap();
    assert_eq!(payout(&first), 2469);
    assert_eq!(status(&state, "A").claimable_ust, 0);
    let second = try_claim(&mut state, &mock_env(), &mock_info("A", &[])).unwrap();
    assert_eq!(payout(&second), 0);
    assert_eq!(state.claim_state.may_load(&"A".to_string()), Some(12_345));
}

#[test]
fn baseline_rises_to_the_pool_and_never_falls() {
    let mut state = two_shares();
    let wallet = "A".to_string();
    assert_eq!(state.claim_state.may_load(&wallet), None);
    let mut last = 0u128;
    for amount in [7u128, 1, 10_000, 3, 999_999] {
        deposit(&mut state, amount);
        try_claim(&mut state, &mock_env(), &mock_info("A", &[])).unwrap();
        let settled = state.claim_state.may_load(&wallet).unwrap();
        assert!(settled >= last);
        assert_eq!(settled, state.fund_state);
        last = settled;
    }
    assert_eq!(state.claim_state.may_load(&"B".to_string()), None);
}

#[test]
fn payouts_stay_within_deposits() {
    let config = Config {
        admin: "admin".to_string(),
        shares: vec![share("a", 3333), share("b", 3333), share("c", 3334)],
    };
    let mut state = instantiate(&mock_env(), &mock_info("admin", &[]), InstantiateMsg { config });
    let mut paid = 0u128;
    for (round, amount) in [1u128, 2, 3, 10, 99, 101, 7].iter().enumerate() {
        deposit(&mut state, *amount);
        let claimant = ["a", "b", "c"][round % 3];
        let response = try_claim(&mut state, &mock_env(), &mock_info(claimant, &[])).unwrap();
        paid += payout(&response);
        assert!(paid <= state.fund_state);
    }
    for claimant in ["a", "b", "c"] {
        let response = try_claim(&mut state, &mock_env(), &mock_info(claimant, &[])).unwrap();
        paid += payout(&response);
    }
    assert_eq!(state.fund_state, 223);
    assert_eq!(paid, 218);
}

#[test]
fn claim_by_a_wallet_without_share_is_not_found() {
    let mut state = two_shares();
    deposit(&mut state, 10_000);
    let before = state.fund_state;
    let r = try_claim(&mut state, &mock_env(), &mock_info("C", &[]));
    assert_eq!(r, Err(ContractError::NotFound));
    assert_eq!(ContractError::NotFound.kind(), ErrorKind::NotFound);
    assert_eq!(state.fund_state, before);
    assert_eq!(state.claim_state, ClaimState::new());
}

#[test]
fn status_of_a_wallet_without_share_is_all_zero() {
    let mut state = two_shares();
    deposit(&mut state, 10_000);
    assert_eq!(
        status(&state, "C"),
        ClaimStatusResponse { claimable_ust: 0, claimed_ust: None, total_ust: 0, share: 0 }
    );
}

#[test]
fn deposit_needs_funds_of_the_accepted_denomination() {
    let mut state = two_shares();
    let r = try_deposit(&mut state, &mock_env(), &mock_info("x", &[]));
    assert_eq!(r, Err(ContractError::EmptyBalance));
    let r = try_deposit(&mut state, &mock_env(), &mock_info("x", &[coin(5, "uluna")]));
    assert_eq!(r, Err(ContractError::EmptyBalance));
    let r = try_deposit(&mut state, &mock_env(), &mock_info("x", &[coin(0, "uusd")]));
    assert_eq!(r, Err(ContractError::EmptyBalance));
    assert_eq!(ContractError::EmptyBalance.kind(), ErrorKind::InvalidFunds);
    assert_eq!(state.fund_state, 0);
    let r = try_deposit(&mut state, &mock_env(), &mock_info("x", &[coin(5, "uusd"), coin(9, "uluna")]));
    assert_eq!(r, Ok(Response { messages: vec![], attributes: vec![] }));
    assert_eq!(state.fund_state, 5);
}

#[test]
fn deposit_beyond_128_bits_is_an_arithmetic_fault() {
    let mut state = two_shares();
    deposit(&mut state, u128::MAX);
    let r = try_deposit(&mut state, &mock_env(), &mock_info("x", &[coin(1, "uusd")]));
    assert_eq!(r, Err(ContractError::ArithmeticFault));
    assert_eq!(state.fund_state, u128::MAX);
}

#[test]
fn claim_beyond_128_bits_is_an_arithmetic_fault() {
    let config = Config { admin: "admin".to_string(), shares: vec![share("big", 20_000)] };
    let mut state = instantiate(&mock_env(), &mock_info("admin", &[]), InstantiateMsg { config });
    deposit(&mut state, u128::MAX);
    let r = try_claim(&mut state, &mock_env(), &mock_info("big", &[]));
    assert_eq!(r, Err(ContractError::ArithmeticFault));
    assert_eq!(state.claim_state.may_load(&"big".to_string()), None);
    assert_eq!(
        get_claim_status(&state, &mock_env(), "big".to_string()),
        Err(ContractError::ArithmeticFault)
    );
}

#[test]
fn baseline_beyond_the_pool_is_an_arithmetic_fault() {
    let mut state = two_shares();
    deposit(&mut state, 5);
    state.claim_state.save(&"A".to_string(), 10);
    let r = try_claim(&mut state, &mock_env(), &mock_info("A", &[]));
    assert_eq!(r, Err(ContractError::ArithmeticFault));
    assert_eq!(ContractError::ArithmeticFault.kind(), ErrorKind::ArithmeticFault);
    assert_eq!(state.claim_state.may_load(&"A".to_string()), Some(10));
}

#[test]
fn config_update_is_for_the_administrator() {
    let mut state = two_shares();
    let next = Config { admin: "other".to_string(), shares: vec![share("A", 1)] };
    let r = try_config_update(&mut state, &mock_env(), &mock_info("A", &[]), next.clone());
    assert_eq!(r, Err(ContractError::Unauthorized));
    assert_eq!(state.config.admin, "admin");
    let r = try_config_update(&mut state, &mock_env(), &mock_info("admin", &[]), next.clone());
    assert_eq!(r, Ok(Response { messages: vec![], attributes: vec![] }));
    assert_eq!(state.config, next);
}

#[test]
fn the_first_line_of_a_wallet_counts() {
    let config = Config {
        admin: "admin".to_string(),
        shares: vec![share("A", 1000), share("A", 5000)],
    };
    let mut state = instantiate(&mock_env(), &mock_info("admin", &[]), InstantiateMsg { config });
    deposit(&mut state, 10_000);
    assert_eq!(status(&state, "A").share, 1000);
    assert_eq!(status(&state, "A").claimable_ust, 1000);
}

#[test]
fn claim_state_keeps_one_baseline_for_each_wallet() {
    let mut ledger = ClaimState::new();
    let a = "a".to_string();
    let b = "b".to_string();
    ledger.save(&a, 1);
    ledger.save(&b, 2);
    ledger.save(&a, 3);
    assert_eq!(ledger.may_load(&a), Some(3));
    assert_eq!(ledger.may_load(&b), Some(2));
    assert_eq!(ledger.may_load(&"c".to_string()), None);
    let copy = ledger.clone();
    assert_eq!(copy, ledger);
}

#[test]
fn a_share_table_beyond_10000_basis_points_is_accepted_as_it_is() {
    let config = Config {
        admin: "admin".to_string(),
        shares: vec![share("a", 10_000), share("b", 10_000)],
    };
    let mut state = instantiate(&mock_env(), &mock_info("admin", &[]), InstantiateMsg { config });
    deposit(&mut state, 100);
    let a = try_claim(&mut state, &mock_env(), &mock_info("a", &[])).unwrap();
    let b = try_claim(&mut state, &mock_env(), &mock_info("b", &[])).unwrap();
    assert_eq!(payout(&a) + payout(&b), 200);
    assert_eq!(state.fund_state, 100);
}

#[test]
fn a_new_share_table_counts_from_the_baseline_on() {
    let mut state = two_shares();
    deposit(&mut state, 10_000);
    try_claim(&mut state, &mock_env(), &mock_info("A", &[])).unwrap();
    let next = Config { admin: "admin".to_string(), shares: vec![share("A", 5000)] };
    try_config_update(&mut state, &mock_env(), &mock_info("admin", &[]), next).unwrap();
    assert_eq!(status(&state, "A").claimable_ust, 0);
    deposit(&mut state, 1_000);
    assert_eq!(status(&state, "A").claimable_ust, 500);
    assert_eq!(try_claim(&mut state, &mock_env(), &mock_info("B", &[])), Err(ContractError::NotFound));
}
