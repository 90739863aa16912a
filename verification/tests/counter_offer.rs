//! The counter-offer book: proposing, eviction at capacity, cancelling and
//! accepting.

use wasm_vault::counter_offer::{accept, cancel, propose};
use wasm_vault::error::ContractError;
use wasm_vault::state::{MAX_COUNTER_OFFERS, VaultState};
use wasm_vault::types::{attr, ChainMsg, Coin, Env, MessageInfo, OpenInterest};

fn coin(amount: u128, denom: &str) -> Coin {
    Coin::new(amount, denom)
}

fn env() -> Env {
    Env { block_time: 1_571_797_419 }
}

fn info(sender: &str, funds: Vec<Coin>) -> MessageInfo {
    MessageInfo { sender: sender.to_string(), funds }
}

fn base_state(owner: &str) -> VaultState {
    VaultState {
        owner: owner.to_string(),
        lender: None,
        outstanding_debt: None,
        open_interest: None,
        open_interest_expiry: None,
        counter_offers: Vec::new(),
        liquidation_unbonding_duration: 21 * 24 * 60 * 60,
        last_liquidation_unbonding: None,
    }
}

fn setup_open_interest(state: &mut VaultState) -> OpenInterest {
    let interest = OpenInterest {
        liquidity_coin: coin(1_000, "uusd"),
        interest_coin: coin(50, "ujuno"),
        expiry_duration: 86_400,
        collateral: coin(2_000, "uatom"),
    };
    state.open_interest = Some(interest.clone());
    interest
}

fn offer_below(active: &OpenInterest, reduction: u128) -> OpenInterest {
    let mut offer = active.clone();
    offer.liquidity_coin.amount -= reduction;
    offer
}

fn rejects_without_active_open_interest_body() {
    let mut state = base_state("owner");
    let err = propose(
        &mut state,
        &info("proposer", vec![]),
        OpenInterest {
            liquidity_coin: coin(900, "uusd"),
            interest_coin: coin(50, "ujuno"),
            expiry_duration: 86_400,
            collateral: coin(2_000, "uatom"),
        },
    )
    .unwrap_err();
    assert!(matches!(err, ContractError::NoOpenInterest));
}

#[test]
fn counter_offer_rejects_without_active_open_interest() {
    rejects_without_active_open_interest_body();
}

#[test]
fn propose_rejects_without_active_open_interest() {
    rejects_without_active_open_interest_body();
}

fn rejects_when_lender_present_body() {
    let mut state = base_state("owner");
    let active = setup_open_interest(&mut state);
    state.lender = Some("lender".to_string());
    let err = propose(&mut state, &info("proposer", vec![]), offer_below(&active, 10))
        .unwrap_err();
    assert!(matches!(err, ContractError::LenderAlreadySet));
}

#[test]
fn counter_offer_rejects_when_lender_present() {
    rejects_when_lender_present_body();
}

#[test]
fn propose_rejects_when_lender_present() {
    rejects_when_lender_present_body();
}

fn rejects_mismatched_terms_body() {
    let mut state = base_state("owner");
    let active = setup_open_interest(&mut state);
    let err = propose(
        &mut state,
        &info("proposer", vec![]),
        OpenInterest {
            liquidity_coin: coin(900, "uusd"),
            interest_coin: coin(55, "ujuno"),
            expiry_duration: active.expiry_duration,
            collateral: active.collateral.clone(),
        },
    )
    .unwrap_err();
    assert!(matches!(err, ContractError::CounterOfferTermsMismatch));
}

#[test]
fn counter_offer_rejects_mismatched_terms() {
    rejects_mismatched_terms_body();
}

#[test]
fn propose_rejects_mismatched_terms() {
    rejects_mismatched_terms_body();
}

fn rejects_non_lower_amounts_body() {
    let mut state = base_state("owner");
    let active = setup_open_interest(&mut state);
    let err = propose(&mut state, &info("proposer", vec![]), active.clone()).unwrap_err();
    assert!(matches!(err, ContractError::CounterOfferNotSmaller));
}

#[test]
fn counter_offer_rejects_non_lower_amounts() {
    rejects_non_lower_amounts_body();
}

#[test]
fn propose_rejects_non_lower_amounts() {
    rejects_non_lower_amounts_body();
}

fn rejects_missing_escrow_deposit_body() {
    let mut state = base_state("owner");
    let active = setup_open_interest(&mut state);
    let err = propose(&mut state, &info("proposer", vec![]), offer_below(&active, 10))
        .unwrap_err();
    assert!(matches!(err, ContractError::CounterOfferEscrowMismatch { .. }));
}

#[test]
fn counter_offer_rejects_missing_escrow_deposit() {
    rejects_missing_escrow_deposit_body();
}

#[test]
fn propose_rejects_missing_escrow_deposit() {
    rejects_missing_escrow_deposit_body();
}

fn rejects_incorrect_escrow_amount_body() {
    let mut state = base_state("owner");
    let active = setup_open_interest(&mut state);
    let offer = offer_below(&active, 10);
    let mut insufficient_deposit = offer.liquidity_coin.clone();
    insufficient_deposit.amount -= 1;
    let err = propose(&mut state, &info("proposer", vec![insufficient_deposit]), offer)
        .unwrap_err();
    assert!(matches!(err, ContractError::CounterOfferEscrowMismatch { .. }));
}

#[test]
fn counter_offer_rejects_incorrect_escrow_amount() {
    rejects_incorrect_escrow_amount_body();
}

#[test]
fn propose_rejects_incorrect_escrow_amount() {
    rejects_incorrect_escrow_amount_body();
}

fn rejects_duplicate_body() {
    let mut state = base_state("owner");
    let active = setup_open_interest(&mut state);
    let offer = offer_below(&active, 25);
    propose(
        &mut state,
        &info("proposer", vec![offer.liquidity_coin.clone()]),
        offer.clone(),
    )
    .expect("first proposal succeeds");
    let err = propose(&mut state, &info("proposer", vec![offer.liquidity_coin.clone()]), offer)
        .unwrap_err();
    assert!(matches!(err, ContractError::CounterOfferAlreadyExists));
}

#[test]
fn counter_offer_rejects_duplicate_counter_offers_from_same_proposer() {
    rejects_duplicate_body();
}

#[test]
fn propose_rejects_duplicate_counter_offers_from_same_proposer() {
    rejects_duplicate_body();
}

fn accrues_outstanding_debt_body() {
    let mut state = base_state("owner");
    let active = setup_open_interest(&mut state);

    let offer_a = offer_below(&active, 10);
    propose(
        &mut state,
        &info("proposer-a", vec![offer_a.liquidity_coin.clone()]),
        offer_a.clone(),
    )
    .expect("first offer succeeds");

    let debt = state.outstanding_debt.as_ref().expect("debt present");
    assert_eq!(debt.amount, offer_a.liquidity_coin.amount);
    assert_eq!(debt.denom, offer_a.liquidity_coin.denom);

    let offer_b = offer_below(&active, 25);
    propose(
        &mut state,
        &info("proposer-b", vec![offer_b.liquidity_coin.clone()]),
        offer_b.clone(),
    )
    .expect("second offer succeeds");

    let debt = state.outstanding_debt.as_ref().expect("debt present");
    let expected_amount = offer_a
        .liquidity_coin
        .amount
        .checked_add(offer_b.liquidity_coin.amount)
        .expect("sum fits");
    assert_eq!(debt.amount, expected_amount);
    assert_eq!(debt.denom, offer_b.liquidity_coin.denom);
}

#[test]
fn counter_offer_accrues_outstanding_debt_for_each_offer() {
    accrues_outstanding_debt_body();
}

#[test]
fn propose_accrues_outstanding_debt_for_each_offer() {
    accrues_outstanding_debt_body();
}

fn stores_offer_and_evicts_smallest_body() {
    let mut state = base_state("owner");
    let active = setup_open_interest(&mut state);
    let mut expected_debt: u128 = 0;
    let mut lowest_offer: Option<(String, Coin)> = None;

    for i in 0..MAX_COUNTER_OFFERS {
        let proposer = format!("proposer{i}");
        let decrement = 10 + i as u128;
        let amount = active.liquidity_coin.amount - decrement;
        let offer = OpenInterest {
            liquidity_coin: coin(amount, "uusd"),
            interest_coin: active.interest_coin.clone(),
            expiry_duration: active.expiry_duration,
            collateral: active.collateral.clone(),
        };
        let refund_coin = offer.liquidity_coin.clone();
        let response = propose(
            &mut state,
            &info(&proposer, vec![refund_coin.clone()]),
            offer,
        )
        .expect("proposal succeeds");

        assert_eq!(response.attributes[0], attr("action", "propose_counter_offer"));
        expected_debt = expected_debt.checked_add(refund_coin.amount).expect("debt sum fits");
        assert!(response.messages.is_empty());

        let replace_lowest = match &lowest_offer {
            Some((_, worst_coin)) => refund_coin.amount < worst_coin.amount,
            None => true,
        };
        if replace_lowest {
            lowest_offer = Some((proposer.clone(), refund_coin.clone()));
        }

        let debt = state.outstanding_debt.as_ref().expect("debt present");
        assert_eq!(debt.amount, expected_debt);
        assert_eq!(debt.denom, active.liquidity_coin.denom);
    }

    let (evicted_addr, evicted_coin) = lowest_offer.expect("worst offer recorded");
    let better_offer = offer_below(&active, 5);
    let response = propose(
        &mut state,
        &info("better-proposer", vec![better_offer.liquidity_coin.clone()]),
        better_offer.clone(),
    )
    .expect("better proposal succeeds");

    assert_eq!(response.messages.len(), 1);
    match &response.messages[0] {
        ChainMsg::Send { to_address, amount } => {
            assert_eq!(to_address, &evicted_addr);
            assert_eq!(amount, &vec![evicted_coin.clone()]);
        }
        _ => panic!("unexpected message"),
    }

    expected_debt = expected_debt
        .checked_add(better_offer.liquidity_coin.amount)
        .expect("debt increment fits")
        .checked_sub(evicted_coin.amount)
        .expect("debt decrement fits");
    let debt = state.outstanding_debt.as_ref().expect("debt present");
    assert_eq!(debt.amount, expected_debt);
    assert_eq!(debt.denom, active.liquidity_coin.denom);

    assert!(!state.counter_offers.iter().any(|entry| entry.proposer == evicted_addr));
    assert!(state.counter_offers.iter().any(|entry| entry.proposer == "better-proposer"));
}

#[test]
fn counter_offer_stores_offer_and_evicts_smallest_when_full() {
    stores_offer_and_evicts_smallest_body();
}

#[test]
fn propose_stores_offer_and_evicts_smallest_when_full() {
    stores_offer_and_evicts_smallest_body();
}

fn rejects_immediately_evicted_body() {
    let mut state = base_state("owner");
    let active = setup_open_interest(&mut state);
    let mut lowest_amount: Option<u128> = None;

    for i in 0..MAX_COUNTER_OFFERS {
        let proposer = format!("proposer{i}");
        let decrement = 20 + i as u128;
        let amount = active.liquidity_coin.amount - decrement;
        let offer = OpenInterest {
            liquidity_coin: coin(amount, "uusd"),
            interest_coin: active.interest_coin.clone(),
            expiry_duration: active.expiry_duration,
            collateral: active.collateral.clone(),
        };
        lowest_amount = match lowest_amount {
            Some(current) if current <= amount => Some(current),
            _ => Some(amount),
        };
        propose(
            &mut state,
            &info(&proposer, vec![offer.liquidity_coin.clone()]),
            offer,
        )
        .expect("setup proposal succeeds");
    }

    let mut low_offer = active.clone();
    low_offer.liquidity_coin.amount = lowest_amount.expect("lowest amount exists") - 1;
    let err = propose(
        &mut state,
        &info("late-proposer", vec![low_offer.liquidity_coin.clone()]),
        low_offer,
    )
    .unwrap_err();
    assert!(matches!(err, ContractError::CounterOfferNotCompetitive { .. }));
}

#[test]
fn counter_offer_rejects_offer_that_would_be_immediately_evicted() {
    rejects_immediately_evicted_body();
}

#[test]
fn propose_rejects_offer_that_would_be_immediately_evicted() {
    rejects_immediately_evicted_body();
}

fn rejects_equal_amount_when_full_body() {
    let mut state = base_state("owner");
    let active = setup_open_interest(&mut state);
    let mut lowest_amount: Option<u128> = None;

    for i in 0..MAX_COUNTER_OFFERS {
        let proposer = format!("proposer{i}");
        let decrement = 15 + i as u128;
        let amount = active.liquidity_coin.amount - decrement;
        let offer = OpenInterest {
            liquidity_coin: coin(amount, "uusd"),
            interest_coin: active.interest_coin.clone(),
            expiry_duration: active.expiry_duration,
            collateral: active.collateral.clone(),
        };
        lowest_amount = match lowest_amount {
            Some(current) if current <= amount => Some(current),
            _ => Some(amount),
        };
        propose(
            &mut state,
            &info(&proposer, vec![offer.liquidity_coin.clone()]),
            offer,
        )
        .expect("setup proposal succeeds");
    }

    let mut equal_offer = active.clone();
    equal_offer.liquidity_coin.amount = lowest_amount.expect("lowest amount exists");
    let err = propose(
        &mut state,
        &info("late-proposer", vec![equal_offer.liquidity_coin.clone()]),
        equal_offer,
    )
    .unwrap_err();
    assert!(matches!(err, ContractError::CounterOfferNotCompetitive { .. }));
}

#[test]
fn counter_offer_rejects_equal_amount_when_full() {
    rejects_equal_amount_when_full_body();
}

#[test]
fn propose_rejects_equal_amount_when_full() {
    rejects_equal_amount_when_full_body();
}

fn owner_can_accept_body() {
    let mut state = base_state("owner");
    let active = setup_open_interest(&mut state);

    let accepted_offer = offer_below(&active, 50);
    let rival_offer = offer_below(&active, 100);

    propose(
        &mut state,
        &info("accepted", vec![accepted_offer.liquidity_coin.clone()]),
        accepted_offer.clone(),
    )
    .expect("accepted proposer funds escrow");
    propose(
        &mut state,
        &info("rival", vec![rival_offer.liquidity_coin.clone()]),
        rival_offer.clone(),
    )
    .expect("rival funds escrow");

    let response = accept(
        &mut state,
        &env(),
        &info("owner", vec![]),
        "accepted".to_string(),
        accepted_offer.clone(),
    )
    .expect("owner accepts offer");

    assert_eq!(response.attributes[0], attr("action", "accept_counter_offer"));
    assert_eq!(response.messages.len(), 1);
    match &response.messages[0] {
        ChainMsg::Send { to_address, amount } => {
            assert_eq!(to_address, "rival");
            assert_eq!(amount.len(), 1);
            assert_eq!(amount[0], rival_offer.liquidity_coin);
        }
        other => panic!("unexpected message: {:?}", other),
    }

    assert_eq!(state.lender, Some("accepted".to_string()));
    assert_eq!(state.open_interest, Some(accepted_offer));
    assert!(state.outstanding_debt.is_none());
    assert!(state.counter_offers.is_empty());
}

#[test]
fn counter_offer_owner_can_accept_counter_offer() {
    owner_can_accept_body();
}

#[test]
fn accept_owner_can_accept_counter_offer() {
    owner_can_accept_body();
}

fn accepting_solo_offer_body() {
    let mut state = base_state("owner");
    let active = setup_open_interest(&mut state);
    let accepted_offer = offer_below(&active, 10);

    propose(
        &mut state,
        &info("accepted", vec![accepted_offer.liquidity_coin.clone()]),
        accepted_offer.clone(),
    )
    .expect("accepted proposer funds escrow");

    let response = accept(
        &mut state,
        &env(),
        &info("owner", vec![]),
        "accepted".to_string(),
        accepted_offer.clone(),
    )
    .expect("owner accepts offer");

    assert_eq!(response.messages.len(), 0, "no refunds expected");
    assert_eq!(state.lender, Some("accepted".to_string()));
    assert_eq!(state.open_interest, Some(accepted_offer));
    assert!(state.outstanding_debt.is_none(), "debt cleared after acceptance");
}

#[test]
fn counter_offer_accepting_solo_offer_clears_debt_without_refunds() {
    accepting_solo_offer_body();
}

#[test]
fn accept_accepting_solo_offer_clears_debt_without_refunds() {
    accepting_solo_offer_body();
}

fn accept_requires_owner_body() {
    let mut state = base_state("owner");
    let active = setup_open_interest(&mut state);
    let offer = offer_below(&active, 25);
    propose(
        &mut state,
        &info("proposer", vec![offer.liquidity_coin.clone()]),
        offer.clone(),
    )
    .expect("proposal stored");

    let err = accept(
        &mut state,
        &env(),
        &info("intruder", vec![]),
        "proposer".to_string(),
        offer,
    )
    .unwrap_err();
    assert!(matches!(err, ContractError::Unauthorized));
}

#[test]
fn counter_offer_accept_requires_owner() {
    accept_requires_owner_body();
}

#[test]
fn accept_accept_requires_owner() {
    accept_requires_owner_body();
}

fn accept_rejects_when_offer_missing_body() {
    let mut state = base_state("owner");
    let active = setup_open_interest(&mut state);
    let offer = offer_below(&active, 10);
    propose(
        &mut state,
        &info("proposer", vec![offer.liquidity_coin.clone()]),
        offer.clone(),
    )
    .expect("proposal stored");

    let err = accept(
        &mut state,
        &env(),
        &info("owner", vec![]),
        "missing".to_string(),
        offer,
    )
    .unwrap_err();
    match err {
        ContractError::CounterOfferNotFound { proposer } => {
            assert_eq!(proposer, "missing");
        }
        other => panic!("unexpected error: {:?}", other),
    }
}

#[test]
fn counter_offer_accept_rejects_when_offer_missing() {
    accept_rejects_when_offer_missing_body();
}

#[test]
fn accept_accept_rejects_when_offer_missing() {
    accept_rejects_when_offer_missing_body();
}

fn accept_rejects_without_open_interest_body() {
    let mut state = base_state("owner");
    setup_open_interest(&mut state);
    let offer = OpenInterest {
        liquidity_coin: coin(900, "uusd"),
        interest_coin: coin(50, "ujuno"),
        expiry_duration: 86_400,
        collateral: coin(2_000, "uatom"),
    };
    propose(
        &mut state,
        &info("proposer", vec![offer.liquidity_coin.clone()]),
        offer.clone(),
    )
    .expect("proposal stored");

    state.open_interest = None;

    let err = accept(
        &mut state,
        &env(),
        &info("owner", vec![]),
        "proposer".to_string(),
        offer,
    )
    .unwrap_err();
    assert!(matches!(err, ContractError::NoOpenInterest));
}

#[test]
fn counter_offer_accept_rejects_without_open_interest() {
    accept_rejects_without_open_interest_body();
}

#[test]
fn accept_accept_rejects_without_open_interest() {
    accept_rejects_without_open_interest_body();
}

fn accept_rejects_when_lender_already_set_body() {
    let mut state = base_state("owner");
    let active = setup_open_interest(&mut state);
    let offer = offer_below(&active, 15);
    propose(
        &mut state,
        &info("proposer", vec![offer.liquidity_coin.clone()]),
        offer.clone(),
    )
    .expect("proposal stored");

    state.lender = Some("proposer".to_string());

    let err = accept(
        &mut state,
        &env(),
        &info("owner", vec![]),
        "proposer".to_string(),
        offer,
    )
    .unwrap_err();
    assert!(matches!(err, ContractError::LenderAlreadySet));
}

#[test]
fn counter_offer_accept_rejects_when_lender_already_set() {
    accept_rejects_when_lender_already_set_body();
}

#[test]
fn accept_accept_rejects_when_lender_already_set() {
    accept_rejects_when_lender_already_set_body();
}

fn accept_rejects_mismatched_payload_body() {
    let mut state = base_state("owner");
    let active = setup_open_interest(&mut state);
    let offer = offer_below(&active, 20);
    propose(
        &mut state,
        &info("proposer", vec![offer.liquidity_coin.clone()]),
        offer.clone(),
    )
    .expect("proposal stored");

    let mut tampered = offer.clone();
    tampered.liquidity_coin.amount -= 1;

    let err = accept(
        &mut state,
        &env(),
        &info("owner", vec![]),
        "proposer".to_string(),
        tampered,
    )
    .unwrap_err();
    match err {
        ContractError::CounterOfferMismatch { proposer: culprit } => {
            assert_eq!(culprit, "proposer");
        }
        other => panic!("unexpected error: {:?}", other),
    }
}

#[test]
fn counter_offer_accept_rejects_mismatched_payload() {
    accept_rejects_mismatched_payload_body();
}

#[test]
fn accept_accept_rejects_mismatched_payload() {
    accept_rejects_mismatched_payload_body();
}

#[test]
fn proposer_can_cancel_counter_offer() {
    let mut state = base_state("owner");
    let active = setup_open_interest(&mut state);
    let offer = offer_below(&active, 25);
    propose(
        &mut state,
        &info("proposer", vec![offer.liquidity_coin.clone()]),
        offer.clone(),
    )
    .expect("proposal stored");

    let response = cancel(&mut state, &info("proposer", vec![])).expect("cancel succeeds");

    assert_eq!(
        response.attributes,
        vec![
            attr("action", "cancel_counter_offer"),
            attr("proposer", "proposer"),
            attr("liquidity_amount", "975"),
        ]
    );
    assert_eq!(response.messages.len(), 1);
    match &response.messages[0] {
        ChainMsg::Send { to_address, amount } => {
            assert_eq!(to_address, "proposer");
            assert_eq!(amount, &vec![offer.liquidity_coin.clone()]);
        }
        other => panic!("unexpected message: {:?}", other),
    }

    assert!(!state.counter_offers.iter().any(|entry| entry.proposer == "proposer"));
    assert!(state.outstanding_debt.is_none());
}

#[test]
fn cancel_rejects_missing_offer() {
    let mut state = base_state("owner");
    setup_open_interest(&mut state);
    let err = cancel(&mut state, &info("missing", vec![])).unwrap_err();
    match err {
        ContractError::CounterOfferNotFound { proposer } => {
            assert_eq!(proposer, "missing");
        }
        other => panic!("unexpected error: {:?}", other),
    }
}

#[test]
fn cancel_rejects_without_open_interest() {
    let mut state = base_state("owner");
    let active = setup_open_interest(&mut state);
    let offer = offer_below(&active, 5);
    propose(
        &mut state,
        &info("proposer", vec![offer.liquidity_coin.clone()]),
        offer,
    )
    .expect("proposal stored");

    state.open_interest = None;

    let err = cancel(&mut state, &info("proposer", vec![])).unwrap_err();
    assert!(matches!(err, ContractError::NoOpenInterest));
}
