//! Escrow-aware stake delegation: while counter offers escrow funds, their
//! total stays reserved and cannot be staked away.

use vstd::prelude::*;
use crate::decimal::decimal_string;
use crate::error::ContractError;
use crate::helpers::{balance_of, has_validator, query_balance, require_owner, validator_exists};
use crate::state::VaultState;
use crate::types::{Attribute, ChainInfo, ChainMsg, Coin, MessageInfo, Response, attr};

verus! {

/// Whether the outstanding debt in the bonded denomination is escrow that
/// must merely stay reserved (terms posted, no lender yet) rather than a
/// debt that forbids delegating.
pub open spec fn debt_is_reservable(pre: VaultState) -> bool {
    pre.open_interest is Some && pre.lender is None
}

/// The amount the outstanding debt reserves in the bonded denomination;
/// meaningful only when the debt is reservable.
pub open spec fn reserved_debt(pre: VaultState, chain: ChainInfo) -> int {
    match pre.outstanding_debt {
        Some(d) => if d.denom@ == chain.bonded_denom@ {
            d.amount as int
        } else {
            0
        },
        None => 0,
    }
}

/// The balance left to delegate once the reserved escrow is set aside.
pub open spec fn delegatable(pre: VaultState, chain: ChainInfo) -> int {
    let balance = balance_of(chain.balances@, chain.bonded_denom@);
    let reserved = reserved_debt(pre, chain);
    if balance >= reserved {
        balance - reserved
    } else {
        0
    }
}

/// Whether the outstanding debt blocks delegating altogether: it sits in
/// the bonded denomination while no counter-offer escrow explains it.
pub open spec fn debt_blocks(pre: VaultState, chain: ChainInfo) -> bool {
    pre.outstanding_debt matches Some(d) && d.denom@ == chain.bonded_denom@
        && !debt_is_reservable(pre)
}

/// Every condition the escrow-aware delegation checks, in force exactly
/// when it succeeds.
pub open spec fn delegate_accepted(
    pre: VaultState,
    info: MessageInfo,
    chain: ChainInfo,
    validator: Seq<char>,
    amount: int,
) -> bool {
    &&& info.sender@ == pre.owner@
    &&& amount > 0
    &&& !debt_blocks(pre, chain)
    &&& delegatable(pre, chain) >= amount
    &&& has_validator(chain.validators@, validator)
}

/// Which error a failing escrow-aware delegation returns, following the
/// order in which the conditions are checked.
pub open spec fn delegate_error(
    pre: VaultState,
    info: MessageInfo,
    chain: ChainInfo,
    validator: Seq<char>,
    amount: int,
    e: ContractError,
) -> bool {
    if info.sender@ != pre.owner@ {
        e is Unauthorized
    } else if amount == 0 {
        e is InvalidDelegationAmount
    } else if debt_blocks(pre, chain) {
        (e matches ContractError::OutstandingDebt { amount: a }
            && a == pre.outstanding_debt->Some_0)
    } else if delegatable(pre, chain) < amount {
        (e matches ContractError::InsufficientBalance { denom, available, requested }
            && denom@ == chain.bonded_denom@
            && available as int == delegatable(pre, chain)
            && requested as int == amount)
    } else {
        !has_validator(chain.validators@, validator) && (e matches
        ContractError::ValidatorNotFound { validator: v } && v@ == validator)
    }
}

/// Delegates bonded-denomination balance to a validator, keeping the
/// counter-offer escrow reserved.
pub fn execute(
    state: &VaultState,
    info: &MessageInfo,
    chain: &ChainInfo,
    validator: String,
    amount: u128,
) -> (r: Result<Response, ContractError>)
    ensures
        r is Ok <==> delegate_accepted(*state, *info, *chain, validator@, amount as int),
        r matches Ok(resp) ==> crate::delegate::delegate_response(resp, *chain, validator, amount),
        r is Err ==> delegate_error(*state, *info, *chain, validator@, amount as int, r->Err_0),
{
    match require_owner(state, &info.sender) {
        Err(e) => {
            return Err(e);
        },
        Ok(_) => {},
    }
    if amount == 0 {
        return Err(ContractError::InvalidDelegationAmount);
    }

    let reserved: u128 = match &state.outstanding_debt {
        Some(debt) => {
            if debt.denom == chain.bonded_denom {
                if state.open_interest.is_some() && state.lender.is_none() {
                    // Escrow held for counter offers stays reserved but does
                    // not forbid delegating the rest.
                    debt.amount
                } else {
                    return Err(ContractError::OutstandingDebt { amount: debt.clone() });
                }
            } else {
                0
            }
        },
        None => 0,
    };
    let balance = query_balance(chain, &chain.bonded_denom);
    let available = if balance >= reserved {
        balance - reserved
    } else {
        0
    };
    if available < amount {
        return Err(ContractError::InsufficientBalance {
            denom: chain.bonded_denom.clone(),
            available,
            requested: amount,
        });
    }
    if !validator_exists(&chain.validators, &validator) {
        return Err(ContractError::ValidatorNotFound { validator });
    }

    let mut messages: Vec<ChainMsg> = Vec::new();
    messages.push(ChainMsg::Delegate {
        validator: validator.clone(),
        amount: Coin { denom: chain.bonded_denom.clone(), amount },
    });
    let mut attributes: Vec<Attribute> = Vec::new();
    attributes.push(attr("action", "delegate"));
    attributes.push(Attribute { key: "validator".to_owned(), value: validator });
    attributes.push(Attribute { key: "denom".to_owned(), value: chain.bonded_denom.clone() });
    attributes.push(Attribute { key: "amount".to_owned(), value: decimal_string(amount) });
    Ok(Response { messages, attributes })
}

} // verus!
