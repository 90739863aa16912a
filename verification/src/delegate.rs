//! Plain stake delegation: the owner moves free balance to a validator.

use vstd::prelude::*;
use crate::decimal::{dec_str, decimal_string};
use crate::error::ContractError;
use crate::helpers::{balance_of, has_validator, query_balance, validator_exists};
use crate::state::VaultState;
use crate::types::{Attribute, ChainInfo, ChainMsg, Coin, MessageInfo, Response, attr};

verus! {

/// Every condition a delegation checks, in force exactly when it succeeds:
/// the owner calls without attached funds, a positive amount, no
/// outstanding debt, a covering balance in the bonded denomination, and a
/// known validator.
pub open spec fn delegate_accepted(
    pre: VaultState,
    info: MessageInfo,
    chain: ChainInfo,
    validator: Seq<char>,
    amount: int,
) -> bool {
    &&& info.sender@ == pre.owner@
    &&& info.funds@.len() == 0
    &&& amount > 0
    &&& (pre.outstanding_debt matches Some(d) ==> d.amount == 0)
    &&& balance_of(chain.balances@, chain.bonded_denom@) >= amount
    &&& has_validator(chain.validators@, validator)
}

/// Which error a failing delegation returns, following the order in which
/// the conditions are checked.
pub open spec fn delegate_error(
    pre: VaultState,
    info: MessageInfo,
    chain: ChainInfo,
    validator: Seq<char>,
    amount: int,
    e: ContractError,
) -> bool {
    if info.sender@ != pre.owner@ {
        e is Unauthorized
    } else if info.funds@.len() != 0 {
        e is FundsNotAccepted
    } else if amount == 0 {
        e is InvalidDelegationAmount
    } else if pre.outstanding_debt matches Some(d) && d.amount != 0 {
        (e matches ContractError::OutstandingDebt { amount: a }
            && a == pre.outstanding_debt->Some_0)
    } else if balance_of(chain.balances@, chain.bonded_denom@) < amount {
        (e matches ContractError::InsufficientBalance { denom, available, requested }
            && denom@ == chain.bonded_denom@
            && available as int == balance_of(chain.balances@, chain.bonded_denom@)
            && requested as int == amount)
    } else {
        !has_validator(chain.validators@, validator) && (e matches
        ContractError::ValidatorNotFound { validator: v } && v@ == validator)
    }
}

/// The response a successful delegation answers: one delegate instruction
/// and the four attributes naming it.
pub open spec fn delegate_response(
    resp: Response,
    chain: ChainInfo,
    validator: String,
    amount: u128,
) -> bool {
    &&& resp.messages@.len() == 1
    &&& (resp.messages@[0] matches ChainMsg::Delegate { validator: v, amount: c }
        && v == validator && c.denom@ == chain.bonded_denom@ && c.amount == amount)
    &&& resp.attributes@.len() == 4
    &&& resp.attributes@[0].key@ == "action"@ && resp.attributes@[0].value@ == "delegate"@
    &&& resp.attributes@[1].key@ == "validator"@ && resp.attributes@[1].value@ == validator@
    &&& resp.attributes@[2].key@ == "denom"@ && resp.attributes@[2].value@ == chain.bonded_denom@
    &&& resp.attributes@[3].key@ == "amount"@ && resp.attributes@[3].value@ == dec_str(
        amount as nat,
    )
}

/// Delegates free balance in the bonded denomination to a validator.
pub fn execute(
    state: &VaultState,
    info: &MessageInfo,
    chain: &ChainInfo,
    validator: String,
    amount: u128,
) -> (r: Result<Response, ContractError>)
    ensures
        r is Ok <==> delegate_accepted(*state, *info, *chain, validator@, amount as int),
        r matches Ok(resp) ==> delegate_response(resp, *chain, validator, amount),
        r is Err ==> delegate_error(*state, *info, *chain, validator@, amount as int, r->Err_0),
{
    if !(info.sender == state.owner) {
        return Err(ContractError::Unauthorized);
    }
    if info.funds.len() != 0 {
        return Err(ContractError::FundsNotAccepted);
    }
    if amount == 0 {
        return Err(ContractError::InvalidDelegationAmount);
    }
    if let Some(debt) = &state.outstanding_debt {
        if debt.amount != 0 {
            return Err(ContractError::OutstandingDebt { amount: debt.clone() });
        }
    }
    let balance = query_balance(chain, &chain.bonded_denom);
    if balance < amount {
        return Err(ContractError::InsufficientBalance {
            denom: chain.bonded_denom.clone(),
            available: balance,
            requested: amount,
        });
    }
    if !validator_exists(&chain.validators, &validator) {
        return Err(ContractError::ValidatorNotFound { validator });
    }

    let mut messages: Vec<ChainMsg> = Vec::new();
    messages.push(ChainMsg::Delegate {
        validator: validator.clone(),
        amount: Coin { denom: chain.bonded_denom.clone(), amount },
    });
    let mut attributes: Vec<Attribute> = Vec::new();
    attributes.push(attr("action", "delegate"));
    attributes.push(Attribute { key: "validator".to_owned(), value: validator });
    attributes.push(Attribute { key: "denom".to_owned(), value: chain.bonded_denom.clone() });
    attributes.push(Attribute { key: "amount".to_owned(), value: decimal_string(amount) });
    Ok(Response { messages, attributes })
}

} // verus!
