//! Owner withdrawals of free balance: whatever is not reserved for the
//! escrow debt or locked as collateral may leave the vault.

use vstd::prelude::*;
use crate::decimal::{dec_str, decimal_string};
use crate::error::ContractError;
use crate::helpers::{
    balance_of, delegations_sum, funds_sum, query_balance, query_staked_balance,
    query_staking_rewards_for_denom,
};
use crate::state::VaultState;
use crate::types::{Attribute, ChainInfo, ChainMsg, Coin, MessageInfo, OpenInterest, Response, attr};

verus! {

/// The collateral that must stay locked for one denomination: the full
/// collateral amount for a non-stakeable denomination, and otherwise the
/// shortfall left after counting claimable rewards and staked balance in
/// that denomination.
pub open spec fn withdraw_lock(
    chain: ChainInfo,
    denom: Seq<char>,
    open_interest: Option<OpenInterest>,
) -> int {
    match open_interest {
        Option::None => 0,
        Option::Some(interest) => {
            if interest.collateral.denom@ != denom {
                0
            } else if denom != chain.bonded_denom@ {
                interest.collateral.amount as int
            } else {
                let coverage = funds_sum(chain.rewards@, denom) + delegations_sum(
                    chain.delegations@,
                    denom,
                );
                if interest.collateral.amount as int <= coverage {
                    0
                } else {
                    interest.collateral.amount - coverage
                }
            }
        },
    }
}

/// Whether computing that lock's staking coverage overflows.
pub open spec fn withdraw_lock_overflows(
    chain: ChainInfo,
    denom: Seq<char>,
    open_interest: Option<OpenInterest>,
) -> bool {
    &&& open_interest matches Some(interest)
    &&& interest.collateral.denom@ == denom
    &&& denom == chain.bonded_denom@
    &&& funds_sum(chain.rewards@, denom) + delegations_sum(chain.delegations@, denom)
        > u128::MAX as int
}

/// The outstanding debt reserved in one denomination.
pub open spec fn debt_reserved(pre: VaultState, denom: Seq<char>) -> int {
    match pre.outstanding_debt {
        Some(d) => if d.denom@ == denom {
            d.amount as int
        } else {
            0
        },
        None => 0,
    }
}

/// What the owner may withdraw: the balance less the larger of the reserved
/// debt and the collateral lock, floored at zero.
pub open spec fn withdrawable(pre: VaultState, chain: ChainInfo, denom: Seq<char>) -> int {
    let balance = balance_of(chain.balances@, denom);
    let debt = debt_reserved(pre, denom);
    let lock = withdraw_lock(chain, denom, pre.open_interest);
    let reserve = if debt >= lock { debt } else { lock };
    if balance >= reserve {
        balance - reserve
    } else {
        0
    }
}

/// Which error a failing withdrawal returns, following the order in which
/// the conditions are checked.
pub open spec fn withdraw_error(
    pre: VaultState,
    info: MessageInfo,
    chain: ChainInfo,
    denom: Seq<char>,
    amount: int,
    e: ContractError,
) -> bool {
    if info.sender@ != pre.owner@ {
        e is Unauthorized
    } else if amount == 0 {
        e is InvalidWithdrawalAmount
    } else if withdraw_lock_overflows(chain, denom, pre.open_interest) {
        (e matches ContractError::ArithmeticOverflow { denom: d } && d@ == denom)
    } else {
        withdrawable(pre, chain, denom) < amount && (e matches
        ContractError::InsufficientBalance { denom: d, available, requested }
            && d@ == denom
            && available as int == withdrawable(pre, chain, denom)
            && requested as int == amount)
    }
}

/// The response a successful withdrawal answers: one transfer to the chosen
/// recipient and the four attributes naming it.
pub open spec fn withdraw_response(
    resp: Response,
    state: VaultState,
    denom: String,
    amount: u128,
    recipient: Option<String>,
) -> bool {
    let target = match recipient {
        Some(rcpt) => rcpt,
        None => state.owner,
    };
    &&& resp.messages@.len() == 1
    &&& (resp.messages@[0] matches ChainMsg::Send { to_address, amount: coins }
        && to_address == target && coins@ == seq![Coin { denom: denom, amount: amount }])
    &&& resp.attributes@.len() == 4
    &&& resp.attributes@[0].key@ == "action"@ && resp.attributes@[0].value@ == "withdraw"@
    &&& resp.attributes@[1].key@ == "denom"@ && resp.attributes@[1].value@ == denom@
    &&& resp.attributes@[2].key@ == "amount"@ && resp.attributes@[2].value@ == dec_str(
        amount as nat,
    )
    &&& resp.attributes@[3].key@ == "recipient"@ && resp.attributes@[3].value@ == target@
}

/// Sends free balance out of the vault: balance not reserved for the escrow
/// debt nor locked as collateral, to a named recipient or to the owner.
pub fn execute(
    state: &VaultState,
    info: &MessageInfo,
    chain: &ChainInfo,
    denom: String,
    amount: u128,
    recipient: Option<String>,
) -> (r: Result<Response, ContractError>)
    ensures
        r is Ok <==> info.sender@ == state.owner@ && amount > 0
            && !withdraw_lock_overflows(*chain, denom@, state.open_interest)
            && withdrawable(*state, *chain, denom@) >= amount as int,
        r matches Ok(resp) ==> withdraw_response(resp, *state, denom, amount, recipient),
        r is Err ==> withdraw_error(*state, *info, *chain, denom@, amount as int, r->Err_0),
{
    if !(info.sender == state.owner) {
        return Err(ContractError::Unauthorized);
    }
    if amount == 0 {
        return Err(ContractError::InvalidWithdrawalAmount);
    }

    let balance = query_balance(chain, &denom);
    let lock: u128 = match &state.open_interest {
        None => 0,
        Some(interest) => {
            if !(interest.collateral.denom == denom) {
                0
            } else if !(denom == chain.bonded_denom) {
                interest.collateral.amount
            } else {
                let rewards = match query_staking_rewards_for_denom(&chain.rewards, &denom) {
                    Ok(v) => v,
                    Err(e) => {
                        proof {
                            crate::helpers::lemma_delegations_sum_nonneg(
                                chain.delegations@,
                                denom@,
                            );
                        }
                        return Err(e);
                    },
                };
                let staked = match query_staked_balance(&chain.delegations, &denom) {
                    Ok(v) => v,
                    Err(e) => {
                        proof {
                            crate::helpers::lemma_funds_sum_nonneg(chain.rewards@, denom@);
                        }
                        return Err(e);
                    },
                };
                if rewards > u128::MAX - staked {
                    return Err(ContractError::ArithmeticOverflow { denom: denom.clone() });
                }
                let coverage = rewards + staked;
                if interest.collateral.amount <= coverage {
                    0
                } else {
                    interest.collateral.amount - coverage
                }
            }
        },
    };
    let debt: u128 = match &state.outstanding_debt {
        Some(d) => if d.denom == denom {
            d.amount
        } else {
            0
        },
        None => 0,
    };
    let reserve = if debt >= lock {
        debt
    } else {
        lock
    };
    let available = if balance >= reserve {
        balance - reserve
    } else {
        0
    };
    if available < amount {
        return Err(ContractError::InsufficientBalance {
            denom,
            available,
            requested: amount,
        });
    }

    let recipient_addr = match recipient {
        Some(addr) => addr,
        None => state.owner.clone(),
    };
    let mut coins: Vec<Coin> = Vec::new();
    coins.push(Coin { denom: denom.clone(), amount });
    let mut messages: Vec<ChainMsg> = Vec::new();
    messages.push(ChainMsg::Send { to_address: recipient_addr.clone(), amount: coins });
    let mut attributes: Vec<Attribute> = Vec::new();
    attributes.push(attr("action", "withdraw"));
    attributes.push(Attribute { key: "denom".to_owned(), value: denom });
    attributes.push(Attribute { key: "amount".to_owned(), value: decimal_string(amount) });
    attributes.push(Attribute { key: "recipient".to_owned(), value: recipient_addr });
    Ok(Response { messages, attributes })
}

} // verus!
