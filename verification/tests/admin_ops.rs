//! Ownership transfer, governance votes, and owner withdrawals.

use wasm_vault::error::ContractError;
use wasm_vault::state::VaultState;
use wasm_vault::transfer;
use wasm_vault::types::{
    ChainInfo, ChainMsg, Coin, Delegation, MessageInfo, OpenInterest, VoteOption,
    WeightedVoteOption,
};
use wasm_vault::vote::{execute_vote, execute_weighted_vote};
use wasm_vault::withdraw;

fn coin(amount: u128, denom: &str) -> Coin {
    Coin::new(amount, denom)
}

fn info(sender: &str, funds: Vec<Coin>) -> MessageInfo {
    MessageInfo { sender: sender.to_string(), funds }
}

fn base_state(owner: &str) -> VaultState {
    VaultState {
        owner: owner.to_string(),
        lender: None,
        outstanding_debt: None,
        open_interest: None,
        open_interest_expiry: None,
        counter_offers: Vec::new(),
        liquidation_unbonding_duration: 21 * 24 * 60 * 60,
        last_liquidation_unbonding: None,
    }
}

fn chain_with(
    bonded_denom: &str,
    balances: Vec<Coin>,
    rewards: Vec<Coin>,
    delegations: Vec<Delegation>,
) -> ChainInfo {
    ChainInfo {
        bonded_denom: bonded_denom.to_string(),
        balances,
        rewards,
        delegations,
        validators: Vec::new(),
    }
}

#[test]
fn transfer_fails_for_unauthorized_sender() {
    let mut state = base_state("owner");
    let err = transfer::execute(&mut state, &info("intruder", vec![]), "new_owner".to_string())
        .unwrap_err();
    assert!(matches!(err, ContractError::Unauthorized));
}

#[test]
fn fails_for_same_owner() {
    let mut state = base_state("owner");
    let err =
        transfer::execute(&mut state, &info("owner", vec![]), "owner".to_string()).unwrap_err();
    assert!(matches!(err, ContractError::OwnershipUnchanged));
}

#[test]
fn updates_owner_and_emits_attributes() {
    let mut state = base_state("owner");
    let response =
        transfer::execute(&mut state, &info("owner", vec![]), "new_owner".to_string())
            .expect("transfer succeeds");

    assert_eq!(state.owner, "new_owner");
    assert_eq!(response.attributes.len(), 3);
    assert!(response
        .attributes
        .iter()
        .any(|a| a.key == "action" && a.value == "transfer_ownership"));
    assert!(response.attributes.iter().any(|a| a.key == "previous_owner" && a.value == "owner"));
    assert!(response.attributes.iter().any(|a| a.key == "new_owner" && a.value == "new_owner"));
}

#[test]
fn standard_vote_requires_owner() {
    let state = base_state("owner");
    let err = execute_vote(&state, &info("intruder", vec![]), 42, VoteOption::Yes).unwrap_err();
    assert!(matches!(err, ContractError::Unauthorized));
}

#[test]
fn creates_standard_vote_message() {
    let state = base_state("owner");
    let response = execute_vote(&state, &info("owner", vec![]), 7, VoteOption::No)
        .expect("vote succeeds");
    assert_eq!(response.messages.len(), 1);
    match &response.messages[0] {
        ChainMsg::Vote { proposal_id, option } => {
            assert_eq!(*proposal_id, 7);
            assert_eq!(*option, VoteOption::No);
        }
        other => panic!("unexpected message: {other:?}"),
    }
}

#[test]
fn weighted_vote_requires_owner() {
    let state = base_state("owner");
    let options = vec![WeightedVoteOption {
        option: VoteOption::Yes,
        weight_atomics: 1_000_000_000_000_000_000,
    }];
    let err = execute_weighted_vote(&state, &info("intruder", vec![]), 12, options).unwrap_err();
    assert!(matches!(err, ContractError::Unauthorized));
}

#[test]
fn creates_weighted_vote_message() {
    let state = base_state("owner");
    let options = vec![
        WeightedVoteOption { option: VoteOption::Yes, weight_atomics: 600_000_000_000_000_000 },
        WeightedVoteOption { option: VoteOption::No, weight_atomics: 400_000_000_000_000_000 },
    ];
    let response = execute_weighted_vote(&state, &info("owner", vec![]), 9, options.clone())
        .expect("vote succeeds");
    assert_eq!(response.messages.len(), 1);
    match &response.messages[0] {
        ChainMsg::VoteWeighted { proposal_id, options: vote_options } => {
            assert_eq!(*proposal_id, 9);
            assert_eq!(vote_options, &options);
        }
        other => panic!("unexpected message: {other:?}"),
    }
}

#[test]
fn withdraw_fails_for_unauthorized_sender() {
    let state = base_state("owner");
    let snapshot = chain_with("ucosm", vec![], vec![], vec![]);
    let err = withdraw::execute(
        &state,
        &info("intruder", vec![]),
        &snapshot,
        "ucosm".to_string(),
        50,
        None,
    )
    .unwrap_err();
    assert!(matches!(err, ContractError::Unauthorized));
}

#[test]
fn withdraw_fails_for_zero_amount() {
    let state = base_state("owner");
    let snapshot = chain_with("ucosm", vec![], vec![], vec![]);
    let err = withdraw::execute(
        &state,
        &info("owner", vec![]),
        &snapshot,
        "ucosm".to_string(),
        0,
        None,
    )
    .unwrap_err();
    assert!(matches!(err, ContractError::InvalidWithdrawalAmount));
}

#[test]
fn fails_for_outstanding_debt_on_matching_denom() {
    let mut state = base_state("owner");
    state.outstanding_debt = Some(coin(250, "ucosm"));
    let snapshot = chain_with("ucosm", vec![coin(200, "ucosm")], vec![], vec![]);
    let err = withdraw::execute(
        &state,
        &info("owner", vec![]),
        &snapshot,
        "ucosm".to_string(),
        10,
        None,
    )
    .unwrap_err();
    assert!(matches!(
        err,
        ContractError::InsufficientBalance { denom, available, requested }
            if denom == "ucosm" && available == 0 && requested == 10
    ));
}

#[test]
fn allows_withdraw_when_balance_exceeds_outstanding_debt() {
    let mut state = base_state("owner");
    state.outstanding_debt = Some(coin(250, "ucosm"));
    let snapshot = chain_with("ucosm", vec![coin(600, "ucosm")], vec![], vec![]);
    let response = withdraw::execute(
        &state,
        &info("owner", vec![]),
        &snapshot,
        "ucosm".to_string(),
        200,
        None,
    )
    .expect("withdraw succeeds");
    assert_eq!(response.messages.len(), 1);
    match &response.messages[0] {
        ChainMsg::Send { to_address, amount } => {
            assert_eq!(to_address, "owner");
            assert_eq!(amount, &vec![coin(200, "ucosm")]);
        }
        _ => panic!("unexpected message"),
    }
}

#[test]
fn withdraw_fails_for_insufficient_balance() {
    let state = base_state("owner");
    let snapshot = chain_with("ucosm", vec![], vec![], vec![]);
    let err = withdraw::execute(
        &state,
        &info("owner", vec![]),
        &snapshot,
        "ucosm".to_string(),
        100,
        None,
    )
    .unwrap_err();
    assert!(matches!(err, ContractError::InsufficientBalance { .. }));
}

#[test]
fn sends_funds_to_owner_when_no_recipient_provided() {
    let state = base_state("owner");
    let snapshot = chain_with("ucosm", vec![coin(400, "ucosm")], vec![], vec![]);
    let response = withdraw::execute(
        &state,
        &info("owner", vec![]),
        &snapshot,
        "ucosm".to_string(),
        150,
        None,
    )
    .expect("withdraw succeeds");
    assert_eq!(response.messages.len(), 1);
    match &response.messages[0] {
        ChainMsg::Send { to_address, amount } => {
            assert_eq!(to_address, "owner");
            assert_eq!(amount, &vec![coin(150, "ucosm")]);
        }
        _ => panic!("unexpected message"),
    }
}

#[test]
fn sends_funds_to_custom_recipient() {
    let state = base_state("owner");
    let snapshot = chain_with("ucosm", vec![coin(500, "ucosm")], vec![], vec![]);
    let response = withdraw::execute(
        &state,
        &info("owner", vec![]),
        &snapshot,
        "ucosm".to_string(),
        200,
        Some("friend".to_string()),
    )
    .expect("withdraw succeeds");
    assert_eq!(response.messages.len(), 1);
    match &response.messages[0] {
        ChainMsg::Send { to_address, amount } => {
            assert_eq!(to_address, "friend");
            assert_eq!(amount, &vec![coin(200, "ucosm")]);
        }
        _ => panic!("unexpected message"),
    }
}

#[test]
fn allows_withdrawal_when_denom_differs_from_debt() {
    let mut state = base_state("owner");
    state.outstanding_debt = Some(coin(999, "ucosm"));
    let snapshot = chain_with("ucosm", vec![coin(600, "uother")], vec![], vec![]);
    let response = withdraw::execute(
        &state,
        &info("owner", vec![]),
        &snapshot,
        "uother".to_string(),
        250,
        None,
    )
    .expect("withdraw succeeds for non-bonded denom");
    assert_eq!(response.messages.len(), 1);
    match &response.messages[0] {
        ChainMsg::Send { to_address, amount } => {
            assert_eq!(to_address, "owner");
            assert_eq!(amount, &vec![coin(250, "uother")]);
        }
        _ => panic!("unexpected message"),
    }
}

#[test]
fn blocks_withdrawal_below_unfunded_nonbonded_collateral() {
    let mut state = base_state("owner");
    state.open_interest = Some(OpenInterest {
        liquidity_coin: coin(100, "uusd"),
        interest_coin: coin(5, "ujuno"),
        expiry_duration: 86_400,
        collateral: coin(200, "uother"),
    });
    let snapshot = chain_with("uosm", vec![coin(200, "uother")], vec![], vec![]);
    let err = withdraw::execute(
        &state,
        &info("owner", vec![]),
        &snapshot,
        "uother".to_string(),
        10,
        None,
    )
    .unwrap_err();
    assert!(matches!(
        err,
        ContractError::InsufficientBalance { denom, available, requested }
            if denom == "uother" && available == 0 && requested == 10
    ));
}

#[test]
fn blocks_withdrawal_below_unfunded_staked_collateral() {
    let mut state = base_state("owner");
    state.open_interest = Some(OpenInterest {
        liquidity_coin: coin(100, "uusd"),
        interest_coin: coin(5, "ujuno"),
        expiry_duration: 86_400,
        collateral: coin(200, "ucosm"),
    });
    let snapshot = chain_with(
        "ucosm",
        vec![coin(120, "ucosm")],
        vec![coin(30, "ucosm")],
        vec![Delegation { validator: "validator".to_string(), amount: coin(100, "ucosm") }],
    );
    let err = withdraw::execute(
        &state,
        &info("owner", vec![]),
        &snapshot,
        "ucosm".to_string(),
        100,
        None,
    )
    .unwrap_err();
    assert!(matches!(
        err,
        ContractError::InsufficientBalance { denom, available, requested }
            if denom == "ucosm" && available == 50 && requested == 100
    ));
}
