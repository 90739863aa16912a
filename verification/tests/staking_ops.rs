//! Delegation, undelegation, redelegation and reward claiming.

use wasm_vault::error::ContractError;
use wasm_vault::state::VaultState;
use wasm_vault::types::{ChainInfo, ChainMsg, Coin, Delegation, MessageInfo, OpenInterest};

fn coin(amount: u128, denom: &str) -> Coin {
    Coin::new(amount, denom)
}

fn info(sender: &str, funds: Vec<Coin>) -> MessageInfo {
    MessageInfo { sender: sender.to_string(), funds }
}

fn base_state(owner: &str) -> VaultState {
    VaultState {
        owner: owner.to_string(),
        lender: None,
        outstanding_debt: None,
        open_interest: None,
        open_interest_expiry: None,
        counter_offers: Vec::new(),
        liquidation_unbonding_duration: 21 * 24 * 60 * 60,
        last_liquidation_unbonding: None,
    }
}

fn chain() -> ChainInfo {
    ChainInfo {
        bonded_denom: "ucosm".to_string(),
        balances: Vec::new(),
        rewards: Vec::new(),
        delegations: Vec::new(),
        validators: Vec::new(),
    }
}

fn chain_with(balances: Vec<Coin>, delegations: Vec<Delegation>, validators: Vec<&str>) -> ChainInfo {
    ChainInfo {
        bonded_denom: "ucosm".to_string(),
        balances,
        rewards: Vec::new(),
        delegations,
        validators: validators.into_iter().map(|v| v.to_string()).collect(),
    }
}

fn delegation(validator: &str, amount: u128) -> Delegation {
    Delegation { validator: validator.to_string(), amount: coin(amount, "ucosm") }
}

#[test]
fn delegate_fails_for_unauthorized_sender() {
    let state = base_state("owner");
    let err = wasm_vault::staking::delegate::execute(
        &state,
        &info("intruder", vec![]),
        &chain(),
        "validator".to_string(),
        10,
    )
    .unwrap_err();
    assert!(matches!(err, ContractError::Unauthorized));
}

#[test]
fn delegate_fails_for_zero_amount() {
    let state = base_state("owner");
    let err = wasm_vault::staking::delegate::execute(
        &state,
        &info("owner", vec![]),
        &chain(),
        "validator".to_string(),
        0,
    )
    .unwrap_err();
    assert!(matches!(err, ContractError::InvalidDelegationAmount));
}

#[test]
fn fails_when_funds_attached() {
    let state = base_state("owner");
    let err = wasm_vault::delegate::execute(
        &state,
        &info("owner", vec![coin(10, "ucosm")]),
        &chain(),
        "validator".to_string(),
        10,
    )
    .unwrap_err();
    assert!(matches!(err, ContractError::FundsNotAccepted));
}

#[test]
fn delegate_fails_for_insufficient_balance() {
    let state = base_state("owner");
    let snapshot = chain_with(vec![coin(50, "ucosm")], vec![], vec![]);
    let err = wasm_vault::staking::delegate::execute(
        &state,
        &info("owner", vec![]),
        &snapshot,
        "validator".to_string(),
        100,
    )
    .unwrap_err();
    assert!(matches!(err, ContractError::InsufficientBalance { .. }));
}

#[test]
fn delegate_fails_for_missing_validator() {
    let state = base_state("owner");
    let snapshot = chain_with(vec![coin(100, "ucosm")], vec![], vec![]);
    let err = wasm_vault::staking::delegate::execute(
        &state,
        &info("owner", vec![]),
        &snapshot,
        "validator".to_string(),
        50,
    )
    .unwrap_err();
    assert!(matches!(err, ContractError::ValidatorNotFound { .. }));
}

#[test]
fn delegate_fails_when_outstanding_debt_exists_for_denom() {
    let mut state = base_state("owner");
    state.outstanding_debt = Some(coin(500, "ucosm"));
    let err = wasm_vault::staking::delegate::execute(
        &state,
        &info("owner", vec![]),
        &chain(),
        "validator".to_string(),
        50,
    )
    .unwrap_err();
    assert!(matches!(
        err,
        ContractError::OutstandingDebt { amount } if amount == coin(500, "ucosm")
    ));
}

#[test]
fn allows_delegation_when_outstanding_debt_is_other_denom() {
    let mut state = base_state("owner");
    state.outstanding_debt = Some(coin(750, "uatom"));
    let snapshot = chain_with(vec![coin(300, "ucosm")], vec![], vec!["validator"]);
    let response = wasm_vault::staking::delegate::execute(
        &state,
        &info("owner", vec![]),
        &snapshot,
        "validator".to_string(),
        200,
    )
    .expect("succeeds");
    assert_eq!(response.messages.len(), 1);
}

#[test]
fn allows_delegation_with_counter_offer_outstanding_debt() {
    let mut state = base_state("owner");
    state.open_interest = Some(OpenInterest {
        liquidity_coin: coin(400, "ucosm"),
        interest_coin: coin(20, "ujuno"),
        expiry_duration: 86_400,
        collateral: coin(200, "uatom"),
    });
    state.outstanding_debt = Some(coin(150, "ucosm"));
    let snapshot = chain_with(vec![coin(600, "ucosm")], vec![], vec!["validator"]);
    let response = wasm_vault::staking::delegate::execute(
        &state,
        &info("owner", vec![]),
        &snapshot,
        "validator".to_string(),
        200,
    )
    .expect("succeeds");
    assert_eq!(response.messages.len(), 1);
}

#[test]
fn fails_when_reserved_debt_blocks_delegation() {
    let mut state = base_state("owner");
    state.open_interest = Some(OpenInterest {
        liquidity_coin: coin(400, "ucosm"),
        interest_coin: coin(20, "ujuno"),
        expiry_duration: 86_400,
        collateral: coin(200, "uatom"),
    });
    state.outstanding_debt = Some(coin(450, "ucosm"));
    let snapshot = chain_with(vec![coin(500, "ucosm")], vec![], vec!["validator"]);
    let err = wasm_vault::staking::delegate::execute(
        &state,
        &info("owner", vec![]),
        &snapshot,
        "validator".to_string(),
        100,
    )
    .unwrap_err();
    assert!(matches!(
        err,
        ContractError::InsufficientBalance { denom, available, requested }
            if denom == "ucosm" && available == 50 && requested == 100
    ));
}

#[test]
fn delegate_creates_delegate_message() {
    let state = base_state("owner");
    let snapshot = chain_with(vec![coin(200, "ucosm")], vec![], vec!["validator"]);
    let response = wasm_vault::staking::delegate::execute(
        &state,
        &info("owner", vec![]),
        &snapshot,
        "validator".to_string(),
        150,
    )
    .expect("delegation succeeds");
    assert_eq!(response.messages.len(), 1);
    match &response.messages[0] {
        ChainMsg::Delegate { validator, amount } => {
            assert_eq!(validator, "validator");
            assert_eq!(amount, &coin(150, "ucosm"));
        }
        _ => panic!("unexpected message"),
    }
}

#[test]
fn claim_fails_for_unauthorized_sender() {
    let state = base_state("owner");
    let err =
        wasm_vault::staking::claim::execute(&state, &info("intruder", vec![]), &chain())
            .unwrap_err();
    assert!(matches!(err, ContractError::Unauthorized));
}

#[test]
fn fails_when_no_delegations_exist() {
    let state = base_state("owner");
    let err = wasm_vault::staking::claim::execute(&state, &info("owner", vec![]), &chain())
        .unwrap_err();
    assert!(matches!(err, ContractError::NoDelegations));
}

#[test]
fn creates_withdraw_messages_for_each_validator() {
    let state = base_state("owner");
    let snapshot = chain_with(
        vec![],
        vec![delegation("validator", 300), delegation("validator-two", 200)],
        vec!["validator", "validator-two"],
    );
    let response = wasm_vault::staking::claim::execute(&state, &info("owner", vec![]), &snapshot)
        .expect("claim rewards succeeds");

    assert_eq!(response.messages.len(), 2);
    let mut validators: Vec<String> = response
        .messages
        .iter()
        .map(|msg| match msg {
            ChainMsg::WithdrawDelegatorReward { validator } => validator.clone(),
            other => panic!("unexpected message: {other:?}"),
        })
        .collect();
    validators.sort();
    assert_eq!(validators, vec!["validator".to_string(), "validator-two".to_string()]);

    assert!(response
        .attributes
        .iter()
        .any(|a| a.key == "action" && a.value == "claim_delegator_rewards"));
    assert!(response.attributes.iter().any(|a| a.key == "validator_count" && a.value == "2"));
}

#[test]
fn undelegate_fails_for_unauthorized_sender() {
    let state = base_state("owner");
    let err = wasm_vault::undelegate::execute(
        &state,
        &info("intruder", vec![]),
        &chain(),
        "validator".to_string(),
        10,
    )
    .unwrap_err();
    assert!(matches!(err, ContractError::Unauthorized));
}

#[test]
fn undelegate_fails_for_zero_amount() {
    let state = base_state("owner");
    let err = wasm_vault::undelegate::execute(
        &state,
        &info("owner", vec![]),
        &chain(),
        "validator".to_string(),
        0,
    )
    .unwrap_err();
    assert!(matches!(err, ContractError::InvalidUndelegationAmount));
}

#[test]
fn undelegate_fails_when_delegation_missing() {
    let state = base_state("owner");
    let err = wasm_vault::undelegate::execute(
        &state,
        &info("owner", vec![]),
        &chain(),
        "validator".to_string(),
        10,
    )
    .unwrap_err();
    assert!(matches!(
        err,
        ContractError::DelegationNotFound { validator } if validator == "validator"
    ));
}

#[test]
fn undelegate_fails_when_delegated_balance_insufficient() {
    let state = base_state("owner");
    let snapshot = chain_with(vec![], vec![delegation("validator", 75)], vec!["validator"]);
    let err = wasm_vault::undelegate::execute(
        &state,
        &info("owner", vec![]),
        &snapshot,
        "validator".to_string(),
        100,
    )
    .unwrap_err();
    assert!(matches!(
        err,
        ContractError::InsufficientDelegatedBalance { validator, delegated, requested }
            if validator == "validator" && delegated == 75 && requested == 100
    ));
}

#[test]
fn creates_undelegate_message() {
    let state = base_state("owner");
    let snapshot = chain_with(vec![], vec![delegation("validator", 300)], vec!["validator"]);
    let response = wasm_vault::undelegate::execute(
        &state,
        &info("owner", vec![]),
        &snapshot,
        "validator".to_string(),
        150,
    )
    .expect("undelegate succeeds");
    assert_eq!(response.messages.len(), 1);
    match &response.messages[0] {
        ChainMsg::Undelegate { validator, amount } => {
            assert_eq!(validator, "validator");
            assert_eq!(amount, &coin(150, "ucosm"));
        }
        _ => panic!("unexpected message"),
    }
}

#[test]
fn allows_undelegation_even_with_outstanding_debt() {
    let mut state = base_state("owner");
    state.outstanding_debt = Some(coin(750, "ucosm"));
    let snapshot = chain_with(vec![], vec![delegation("validator", 400)], vec!["validator"]);
    wasm_vault::undelegate::execute(
        &state,
        &info("owner", vec![]),
        &snapshot,
        "validator".to_string(),
        200,
    )
    .expect("undelegate succeeds even with debt");
}

#[test]
fn redelegate_fails_for_unauthorized_sender() {
    let state = base_state("owner");
    let err = wasm_vault::redelegate::execute(
        &state,
        &info("intruder", vec![]),
        &chain(),
        "validator".to_string(),
        "validator-two".to_string(),
        10,
    )
    .unwrap_err();
    assert!(matches!(err, ContractError::Unauthorized));
}

#[test]
fn redelegate_fails_for_zero_amount() {
    let state = base_state("owner");
    let err = wasm_vault::redelegate::execute(
        &state,
        &info("owner", vec![]),
        &chain(),
        "validator".to_string(),
        "validator-two".to_string(),
        0,
    )
    .unwrap_err();
    assert!(matches!(err, ContractError::InvalidRedelegationAmount));
}

#[test]
fn fails_when_outstanding_debt_matches_bonded_denom() {
    let mut state = base_state("owner");
    state.outstanding_debt = Some(coin(250, "ucosm"));
    let err = wasm_vault::redelegate::execute(
        &state,
        &info("owner", vec![]),
        &chain(),
        "validator".to_string(),
        "validator-two".to_string(),
        10,
    )
    .unwrap_err();
    match err {
        ContractError::OutstandingDebt { amount } => assert_eq!(amount, coin(250, "ucosm")),
        other => panic!("unexpected error: {:?}", other),
    }
}

#[test]
fn allows_redelegation_when_outstanding_debt_is_other_denom() {
    let mut state = base_state("owner");
    state.outstanding_debt = Some(coin(250, "ucosm_alt"));
    let snapshot = chain_with(
        vec![],
        vec![delegation("validator", 300)],
        vec!["validator", "validator-two"],
    );
    let response = wasm_vault::redelegate::execute(
        &state,
        &info("owner", vec![]),
        &snapshot,
        "validator".to_string(),
        "validator-two".to_string(),
        50,
    )
    .expect("redelegation succeeds");
    assert_eq!(response.messages.len(), 1);
}

#[test]
fn fails_when_same_validator_used() {
    let state = base_state("owner");
    let err = wasm_vault::redelegate::execute(
        &state,
        &info("owner", vec![]),
        &chain(),
        "validator".to_string(),
        "validator".to_string(),
        10,
    )
    .unwrap_err();
    assert!(matches!(err, ContractError::RedelegateToSameValidator));
}

#[test]
fn redelegate_fails_when_delegation_missing() {
    let state = base_state("owner");
    let err = wasm_vault::redelegate::execute(
        &state,
        &info("owner", vec![]),
        &chain(),
        "validator".to_string(),
        "validator-two".to_string(),
        10,
    )
    .unwrap_err();
    assert!(matches!(
        err,
        ContractError::DelegationNotFound { validator } if validator == "validator"
    ));
}

#[test]
fn redelegate_fails_when_delegated_balance_insufficient() {
    let state = base_state("owner");
    let snapshot = chain_with(vec![], vec![delegation("validator", 40)], vec!["validator"]);
    let err = wasm_vault::redelegate::execute(
        &state,
        &info("owner", vec![]),
        &snapshot,
        "validator".to_string(),
        "validator-two".to_string(),
        100,
    )
    .unwrap_err();
    assert!(matches!(
        err,
        ContractError::InsufficientDelegatedBalance { validator, delegated, requested }
            if validator == "validator" && delegated == 40 && requested == 100
    ));
}

#[test]
fn fails_when_destination_validator_missing() {
    let state = base_state("owner");
    let snapshot = chain_with(vec![], vec![delegation("validator", 120)], vec!["validator"]);
    let err = wasm_vault::redelegate::execute(
        &state,
        &info("owner", vec![]),
        &snapshot,
        "validator".to_string(),
        "validator-two".to_string(),
        50,
    )
    .unwrap_err();
    assert!(matches!(
        err,
        ContractError::ValidatorNotFound { validator } if validator == "validator-two"
    ));
}

#[test]
fn creates_redelegate_message() {
    let state = base_state("owner");
    let snapshot = chain_with(
        vec![],
        vec![delegation("validator", 300)],
        vec!["validator", "validator-two"],
    );
    let response = wasm_vault::redelegate::execute(
        &state,
        &info("owner", vec![]),
        &snapshot,
        "validator".to_string(),
        "validator-two".to_string(),
        150,
    )
    .expect("redelegate succeeds");
    assert_eq!(response.messages.len(), 1);
    match &response.messages[0] {
        ChainMsg::Redelegate { src_validator, dst_validator, amount } => {
            assert_eq!(src_validator, "validator");
            assert_eq!(dst_validator, "validator-two");
            assert_eq!(amount, &coin(150, "ucosm"));
        }
        _ => panic!("unexpected message"),
    }
}
