//! Post-expiry forced settlement: pay the lender from available balance,
//! claim staking rewards when they help, undelegate stake for the rest, and
//! carry any unpaid remainder forward as outstanding debt.

use vstd::prelude::*;
use vstd::pervasive::unreached;
use crate::decimal::{dec_str, decimal_string};
use crate::error::ContractError;
use crate::helpers::{
    balance_of, funds_sum, is_owner_or_lender, query_balance, require_owner_or_lender,
    query_staking_rewards_for_denom,
};
use crate::open_interest::{oi_attrs_prefix, open_interest_attributes};
use crate::state::VaultState;
use crate::types::{
    Attribute, ChainInfo, ChainMsg, Coin, Delegation, Env, MessageInfo, OpenInterest, Response,
};

verus! {

/// The active terms a liquidation settles.
pub open spec fn liq_oi(pre: VaultState) -> OpenInterest {
    pre.open_interest->Some_0
}

/// The amount still owed: the stored debt of an earlier partial
/// liquidation, or the full collateral amount on the first attempt.
pub open spec fn liq_owed(pre: VaultState) -> int {
    match pre.outstanding_debt {
        Some(d) => d.amount as int,
        None => liq_oi(pre).collateral.amount as int,
    }
}

/// The balance the snapshot holds in the collateral denomination.
pub open spec fn liq_balance(pre: VaultState, chain: ChainInfo) -> int {
    balance_of(chain.balances@, liq_oi(pre).collateral.denom@)
}

/// Whether the liquidation reaches for staking rewards: the collateral is
/// the bonded denomination and the balance alone falls short.
pub open spec fn liq_collecting(pre: VaultState, chain: ChainInfo) -> bool {
    liq_oi(pre).collateral.denom@ == chain.bonded_denom@
        && liq_balance(pre, chain) < liq_owed(pre)
}

/// The claimable rewards in the collateral denomination.
pub open spec fn liq_rewards(pre: VaultState, chain: ChainInfo) -> int {
    funds_sum(chain.rewards@, liq_oi(pre).collateral.denom@)
}

/// Whether reward-withdrawal instructions are emitted: rewards are reached
/// for and there is something to claim.
pub open spec fn liq_claiming(pre: VaultState, chain: ChainInfo) -> bool {
    liq_collecting(pre, chain) && liq_rewards(pre, chain) != 0
}

/// The figure available for the payout: the balance, plus the claimed
/// rewards when the liquidation reaches for them.
pub open spec fn liq_available(pre: VaultState, chain: ChainInfo) -> int {
    liq_balance(pre, chain) + if liq_collecting(pre, chain) {
        liq_rewards(pre, chain)
    } else {
        0
    }
}

/// The payout to the lender: whatever is available, capped at the debt.
pub open spec fn liq_payout(pre: VaultState, chain: ChainInfo) -> int {
    if liq_available(pre, chain) < liq_owed(pre) {
        liq_available(pre, chain)
    } else {
        liq_owed(pre)
    }
}

/// What the payout leaves unpaid.
pub open spec fn liq_remaining(pre: VaultState, chain: ChainInfo) -> int {
    liq_owed(pre) - liq_payout(pre, chain)
}

/// The total stake the undelegation sweep recovers: each delegation gives
/// `min(stake, remaining)` until nothing remains.
pub open spec fn undelegated_total(dels: Seq<Delegation>, remaining: int) -> int
    decreases dels.len(),
{
    if dels.len() == 0 || remaining <= 0 {
        0
    } else {
        let stake = dels.first().amount.amount as int;
        let take = if stake < remaining { stake } else { remaining };
        take + undelegated_total(dels.drop_first(), remaining - take)
    }
}

/// The undelegation instructions the sweep emits, in delegation order,
/// skipping empty delegations and stopping once nothing remains.
pub open spec fn undelegation_msgs(dels: Seq<Delegation>, denom: String, remaining: int) -> Seq<
    ChainMsg,
>
    decreases dels.len(),
{
    if dels.len() == 0 || remaining <= 0 {
        Seq::empty()
    } else {
        let stake = dels.first().amount.amount as int;
        if stake == 0 {
            undelegation_msgs(dels.drop_first(), denom, remaining)
        } else {
            let take = if stake < remaining { stake } else { remaining };
            seq![
                ChainMsg::Undelegate {
                    validator: dels.first().validator,
                    amount: Coin { denom, amount: take as u128 },
                },
            ] + undelegation_msgs(dels.drop_first(), denom, remaining - take)
        }
    }
}

/// The sweep never recovers more than remains, and never a negative total.
pub proof fn lemma_undelegated_total_bounds(dels: Seq<Delegation>, remaining: int)
    requires
        remaining >= 0,
    ensures
        0 <= undelegated_total(dels, remaining) <= remaining,
    decreases dels.len(),
{
    if dels.len() > 0 && remaining > 0 {
        let stake = dels.first().amount.amount as int;
        let take = if stake < remaining { stake } else { remaining };
        lemma_undelegated_total_bounds(dels.drop_first(), remaining - take)
    }
}

/// What the undelegation sweep leaves outstanding.
pub open spec fn liq_settled(pre: VaultState, chain: ChainInfo) -> int {
    liq_remaining(pre, chain) - undelegated_total(
        chain.delegations@,
        liq_remaining(pre, chain),
    )
}

/// Every condition a liquidation checks, in force exactly when it succeeds.
pub open spec fn liquidate_accepted(
    pre: VaultState,
    env: Env,
    info: MessageInfo,
    chain: ChainInfo,
) -> bool {
    &&& is_owner_or_lender(pre, info.sender@)
    &&& pre.open_interest is Some
    &&& pre.lender is Some
    &&& env.block_time >= pre.open_interest_expiry->Some_0
    &&& (pre.outstanding_debt matches Some(d) ==> d.denom@ == liq_oi(pre).collateral.denom@)
    &&& (liq_collecting(pre, chain) ==> liq_rewards(pre, chain) <= u128::MAX as int
        && liq_balance(pre, chain) + liq_rewards(pre, chain) <= u128::MAX as int)
    &&& (liq_remaining(pre, chain) > 0 ==> liq_oi(pre).collateral.denom@ == chain.bonded_denom@)
}

/// Which error a failing liquidation returns, following the order in which
/// the conditions are checked.
pub open spec fn liquidate_error(
    pre: VaultState,
    env: Env,
    info: MessageInfo,
    chain: ChainInfo,
    e: ContractError,
) -> bool {
    if !is_owner_or_lender(pre, info.sender@) {
        e is Unauthorized
    } else if pre.open_interest is None {
        e is NoOpenInterest
    } else if pre.lender is None {
        e is NoLender
    } else if env.block_time < pre.open_interest_expiry->Some_0 {
        e is OpenInterestNotExpired
    } else if pre.outstanding_debt matches Some(d) && d.denom@ != liq_oi(pre).collateral.denom@ {
        (e matches ContractError::OutstandingDebtDenomMismatch { expected, found }
            && expected@ == liq_oi(pre).collateral.denom@
            && found@ == pre.outstanding_debt->Some_0.denom@)
    } else if liq_collecting(pre, chain) && (liq_rewards(pre, chain) > u128::MAX as int
        || liq_balance(pre, chain) + liq_rewards(pre, chain) > u128::MAX as int) {
        (e matches ContractError::ArithmeticOverflow { denom }
            && denom@ == liq_oi(pre).collateral.denom@)
    } else {
        liq_remaining(pre, chain) > 0 && liq_oi(pre).collateral.denom@ != chain.bonded_denom@
            && (e matches ContractError::InsufficientBalance { denom, available, requested }
            && denom@ == liq_oi(pre).collateral.denom@
            && available as int == liq_available(pre, chain)
            && requested as int == liq_owed(pre))
    }
}

/// How a successful liquidation transforms the state and what it emits.
///
/// The instruction list is ordered: reward withdrawals first, then the
/// payment they back, then the undelegations — the payment is correct only
/// because the host executes the withdrawals before it.
pub open spec fn liquidate_applied(
    pre: VaultState,
    post: VaultState,
    resp: Response,
    info: MessageInfo,
    chain: ChainInfo,
) -> bool {
    let owed = liq_owed(pre);
    let available = liq_available(pre, chain);
    let payout = liq_payout(pre, chain);
    let remaining = liq_remaining(pre, chain);
    let claimed = if liq_claiming(pre, chain) { liq_rewards(pre, chain) } else { 0 };
    let undelegated = undelegated_total(chain.delegations@, remaining);
    let settled = liq_settled(pre, chain);
    let denom_value = liq_oi(pre).collateral.denom;
    let nclaims = if liq_claiming(pre, chain) { chain.delegations@.len() as int } else { 0 };
    let npay: int = if payout != 0 { 1 } else { 0 };
    let undels = undelegation_msgs(chain.delegations@, denom_value, remaining);
    &&& if settled == 0 {
        post == VaultState {
            outstanding_debt: None,
            open_interest: None,
            lender: None,
            open_interest_expiry: None,
            ..pre
        }
    } else {
        post == VaultState {
            outstanding_debt: Some(Coin { denom: denom_value, amount: settled as u128 }),
            ..pre
        }
    }
    &&& resp.messages@.len() == nclaims + npay + undels.len()
    &&& (forall|k: int|
        0 <= k < nclaims ==> (#[trigger] resp.messages@[k] matches
        ChainMsg::WithdrawDelegatorReward { validator }
            && validator == chain.delegations@[k].validator))
    &&& (payout != 0 ==> (resp.messages@[nclaims] matches ChainMsg::Send { to_address, amount }
        && to_address == pre.lender->Some_0
        && amount@ == seq![Coin { denom: denom_value, amount: payout as u128 }]))
    &&& resp.messages@.skip(nclaims + npay) == undels
    &&& liquidate_attrs(resp.attributes@, pre, info, owed, available, payout, claimed,
        undelegated, settled)
}

/// The attribute list of a liquidation: the term attributes, lender and
/// liquidator, then one figure each for debt, availability, payout, claimed
/// rewards, undelegated stake and remaining debt — each only when nonzero.
pub open spec fn liquidate_attrs(
    attrs: Seq<Attribute>,
    pre: VaultState,
    info: MessageInfo,
    owed: int,
    available: int,
    payout: int,
    claimed: int,
    undelegated: int,
    settled: int,
) -> bool {
    let c0: int = 10;
    let c1 = c0 + if owed != 0 { 1int } else { 0 };
    let c2 = c1 + if available != 0 { 1int } else { 0 };
    let c3 = c2 + if payout != 0 { 1int } else { 0 };
    let c4 = c3 + if claimed != 0 { 1int } else { 0 };
    let c5 = c4 + if undelegated != 0 { 1int } else { 0 };
    let c6 = c5 + if settled != 0 { 1int } else { 0 };
    &&& attrs.len() == c6
    &&& oi_attrs_prefix(attrs, "liquidate_open_interest"@, liq_oi(pre))
    &&& attrs[8].key@ == "lender"@ && attrs[8].value@ == pre.lender->Some_0@
    &&& attrs[9].key@ == "liquidator"@ && attrs[9].value@ == info.sender@
    &&& (owed != 0 ==> attrs[c0].key@ == "requested_amount"@
        && attrs[c0].value@ == dec_str(owed as nat))
    &&& (available != 0 ==> attrs[c1].key@ == "available_balance"@
        && attrs[c1].value@ == dec_str(available as nat))
    &&& (payout != 0 ==> attrs[c2].key@ == "payout_amount"@
        && attrs[c2].value@ == dec_str(payout as nat))
    &&& (claimed != 0 ==> attrs[c3].key@ == "rewards_claimed"@
        && attrs[c3].value@ == dec_str(claimed as nat))
    &&& (undelegated != 0 ==> attrs[c4].key@ == "undelegated_amount"@
        && attrs[c4].value@ == dec_str(undelegated as nat))
    &&& (settled != 0 ==> attrs[c5].key@ == "outstanding_debt"@
        && attrs[c5].value@ == dec_str(settled as nat))
}

/// Appends one informational figure, but only when it is nonzero.
fn push_nonzero_attr(attrs: &mut Vec<Attribute>, key: &str, value: u128)
    ensures
        value == 0 ==> final(attrs)@ == old(attrs)@,
        value != 0 ==> final(attrs)@.len() == old(attrs)@.len() + 1
            && final(attrs)@ == old(attrs)@.push(final(attrs)@.last())
            && final(attrs)@.last().key@ == key@
            && final(attrs)@.last().value@ == dec_str(value as nat),
{
    if value == 0 {
        return;
    }
    attrs.push(Attribute { key: key.to_owned(), value: decimal_string(value) });
}

/// Settles an expired position by force. Only the owner or the bound lender
/// may call it, and only at or after the expiry time.
///
/// The payout draws on the balance in the collateral denomination and — for
/// the bonded denomination — on claimable staking rewards; stake is
/// undelegated for whatever the payout leaves open, and an unpaid remainder
/// becomes the outstanding debt of a later attempt. When nothing remains,
/// terms, lender, expiry and debt are all cleared.
#[verifier::loop_isolation(false)]
#[verifier::rlimit(80)]
pub fn liquidate(
    state: &mut VaultState,
    env: &Env,
    info: &MessageInfo,
    chain: &ChainInfo,
) -> (r: Result<Response, ContractError>)
    requires
        old(state).wf(),
    ensures
        final(state).wf(),
        r is Ok <==> liquidate_accepted(*old(state), *env, *info, *chain),
        r matches Ok(resp) ==> liquidate_applied(*old(state), *final(state), resp, *info, *chain),
        r is Err ==> *final(state) == *old(state)
            && liquidate_error(*old(state), *env, *info, *chain, r->Err_0),
{
    match require_owner_or_lender(state, &info.sender) {
        Err(e) => {
            return Err(e);
        },
        Ok(_) => {},
    }
    let open_interest = match &state.open_interest {
        Some(oi) => oi.clone(),
        None => {
            return Err(ContractError::NoOpenInterest);
        },
    };
    let lender = match &state.lender {
        Some(l) => l.clone(),
        None => {
            return Err(ContractError::NoLender);
        },
    };
    let expiry = match state.open_interest_expiry {
        Some(t) => t,
        None => unreached(),
    };
    if env.block_time < expiry {
        return Err(ContractError::OpenInterestNotExpired);
    }

    let owed: u128 = match &state.outstanding_debt {
        Some(debt) => {
            if !(debt.denom == open_interest.collateral.denom) {
                return Err(ContractError::OutstandingDebtDenomMismatch {
                    expected: open_interest.collateral.denom.clone(),
                    found: debt.denom.clone(),
                });
            }
            debt.amount
        },
        None => open_interest.collateral.amount,
    };

    let balance = query_balance(chain, &open_interest.collateral.denom);
    let collecting = open_interest.collateral.denom == chain.bonded_denom && balance < owed;
    let mut messages: Vec<ChainMsg> = Vec::new();
    let mut rewards_claimed: u128 = 0;
    let mut available: u128 = balance;
    if collecting {
        let reward_amount = match query_staking_rewards_for_denom(
            &chain.rewards,
            &open_interest.collateral.denom,
        ) {
            Ok(v) => v,
            Err(e) => {
                return Err(e);
            },
        };
        if reward_amount != 0 {
            let nd = chain.delegations.len();
            for k in 0..nd
                invariant
                    messages@.len() == k,
                    forall|m: int|
                        0 <= m < k ==> (#[trigger] messages@[m] matches
                        ChainMsg::WithdrawDelegatorReward { validator }
                            && validator == chain.delegations@[m].validator),
            {
                messages.push(ChainMsg::WithdrawDelegatorReward {
                    validator: chain.delegations[k].validator.clone(),
                });
            }
            rewards_claimed = reward_amount;
        }
        if balance > u128::MAX - reward_amount {
            return Err(ContractError::ArithmeticOverflow {
                denom: open_interest.collateral.denom.clone(),
            });
        }
        available = balance + reward_amount;
    }

    let payout: u128 = if available < owed {
        available
    } else {
        owed
    };
    let ghost nclaims: int = messages@.len() as int;
    if payout != 0 {
        let mut pay_coins: Vec<Coin> = Vec::new();
        pay_coins.push(Coin { denom: open_interest.collateral.denom.clone(), amount: payout });
        messages.push(ChainMsg::Send { to_address: lender.clone(), amount: pay_coins });
    }
    let remaining = owed - payout;
    if remaining != 0 && !(open_interest.collateral.denom == chain.bonded_denom) {
        return Err(ContractError::InsufficientBalance {
            denom: open_interest.collateral.denom.clone(),
            available,
            requested: owed,
        });
    }

    let ghost base_msgs = messages@;
    let ghost denom_value = open_interest.collateral.denom;
    let ghost full_undels = undelegation_msgs(chain.delegations@, denom_value, remaining as int);
    let ghost full_total = undelegated_total(chain.delegations@, remaining as int);
    let mut remaining_to_undelegate: u128 = remaining;
    let mut undelegated: u128 = 0;
    let nd = chain.delegations.len();
    proof {
        assert(chain.delegations@.skip(0) =~= chain.delegations@);
    }
    let mut k: usize = 0;
    while k < nd
        invariant
            k <= nd,
            undelegated + remaining_to_undelegate == remaining,
            base_msgs + full_undels == messages@ + undelegation_msgs(
                chain.delegations@.skip(k as int),
                denom_value,
                remaining_to_undelegate as int,
            ),
            full_total == undelegated + undelegated_total(
                chain.delegations@.skip(k as int),
                remaining_to_undelegate as int,
            ),
        decreases nd - k,
    {
        if remaining_to_undelegate == 0 {
            break;
        }
        proof {
            assert(chain.delegations@.skip(k as int).first() == chain.delegations@[k as int]);
            assert(chain.delegations@.skip(k as int).drop_first()
                =~= chain.delegations@.skip(k + 1));
        }
        let stake_amount = chain.delegations[k].amount.amount;
        if stake_amount != 0 {
            let take: u128 = if stake_amount < remaining_to_undelegate {
                stake_amount
            } else {
                remaining_to_undelegate
            };
            let ghost before = messages@;
            let ghost rest = undelegation_msgs(
                chain.delegations@.skip(k + 1),
                denom_value,
                remaining_to_undelegate - take,
            );
            let undel_msg = ChainMsg::Undelegate {
                validator: chain.delegations[k].validator.clone(),
                amount: Coin { denom: open_interest.collateral.denom.clone(), amount: take },
            };
            messages.push(undel_msg);
            proof {
                let m = ChainMsg::Undelegate {
                    validator: chain.delegations@[k as int].validator,
                    amount: Coin { denom: denom_value, amount: take },
                };
                assert(before + (seq![m] + rest) =~= messages@ + rest);
            }
            remaining_to_undelegate = remaining_to_undelegate - take;
            undelegated = undelegated + take;
        }
        k = k + 1;
    }
    proof {
        if remaining_to_undelegate != 0 {
            assert(chain.delegations@.skip(nd as int) =~= Seq::<Delegation>::empty());
        }
        lemma_undelegated_total_bounds(chain.delegations@, remaining as int);
        assert(messages@ =~= base_msgs + full_undels);
        assert((base_msgs + full_undels).skip(base_msgs.len() as int) =~= full_undels);
    }
    let settled = remaining_to_undelegate;

    if settled == 0 {
        state.outstanding_debt = None;
        state.open_interest = None;
        state.clear_active_lender();
    } else {
        state.outstanding_debt = Some(Coin {
            denom: open_interest.collateral.denom.clone(),
            amount: settled,
        });
    }

    let mut attributes = open_interest_attributes("liquidate_open_interest", &open_interest);
    attributes.push(Attribute { key: "lender".to_owned(), value: lender });
    attributes.push(Attribute { key: "liquidator".to_owned(), value: info.sender.clone() });
    push_nonzero_attr(&mut attributes, "requested_amount", owed);
    push_nonzero_attr(&mut attributes, "available_balance", available);
    push_nonzero_attr(&mut attributes, "payout_amount", payout);
    push_nonzero_attr(&mut attributes, "rewards_claimed", rewards_claimed);
    push_nonzero_attr(&mut attributes, "undelegated_amount", undelegated);
    push_nonzero_attr(&mut attributes, "outstanding_debt", settled);

    Ok(Response { messages, attributes })
}

} // verus!
