//! Moving stake between validators without unbonding.

use vstd::prelude::*;
use crate::decimal::{dec_str, decimal_string};
use crate::error::ContractError;
use crate::helpers::{
    delegation_index, find_delegation, has_delegation, has_validator, validator_exists,
};
use crate::state::VaultState;
use crate::types::{Attribute, ChainInfo, ChainMsg, Coin, MessageInfo, Response, attr};

verus! {

/// Every condition a redelegation checks, in force exactly when it
/// succeeds: the owner asks a positive amount between two different
/// validators, no outstanding debt sits in the bonded denomination, the
/// source delegation covers the amount, and the target validator is known.
pub open spec fn redelegate_accepted(
    pre: VaultState,
    info: MessageInfo,
    chain: ChainInfo,
    src: Seq<char>,
    dst: Seq<char>,
    amount: int,
) -> bool {
    &&& info.sender@ == pre.owner@
    &&& amount > 0
    &&& src != dst
    &&& !(pre.outstanding_debt matches Some(d) && d.denom@ == chain.bonded_denom@)
    &&& has_delegation(chain.delegations@, src)
    &&& chain.delegations@[delegation_index(chain.delegations@, src)].amount.amount as int
        >= amount
    &&& has_validator(chain.validators@, dst)
}

/// Which error a failing redelegation returns, following the order in
/// which the conditions are checked.
pub open spec fn redelegate_error(
    pre: VaultState,
    info: MessageInfo,
    chain: ChainInfo,
    src: Seq<char>,
    dst: Seq<char>,
    amount: int,
    e: ContractError,
) -> bool {
    if info.sender@ != pre.owner@ {
        e is Unauthorized
    } else if amount == 0 {
        e is InvalidRedelegationAmount
    } else if src == dst {
        e is RedelegateToSameValidator
    } else if pre.outstanding_debt matches Some(d) && d.denom@ == chain.bonded_denom@ {
        (e matches ContractError::OutstandingDebt { amount: a }
            && a == pre.outstanding_debt->Some_0)
    } else if !has_delegation(chain.delegations@, src) {
        (e matches ContractError::DelegationNotFound { validator: v } && v@ == src)
    } else if (chain.delegations@[delegation_index(chain.delegations@, src)].amount.amount as int)
        < amount {
        (e matches ContractError::InsufficientDelegatedBalance { validator: v, delegated, requested }
            && v@ == src
            && delegated as int == chain.delegations@[delegation_index(
                chain.delegations@,
                src,
            )].amount.amount as int
            && requested as int == amount)
    } else {
        !has_validator(chain.validators@, dst) && (e matches ContractError::ValidatorNotFound {
            validator: v,
        } && v@ == dst)
    }
}

/// The response a successful redelegation answers: one redelegate
/// instruction and the five attributes naming it.
pub open spec fn redelegate_response(
    resp: Response,
    chain: ChainInfo,
    src_validator: String,
    dst_validator: String,
    amount: u128,
) -> bool {
    &&& resp.messages@.len() == 1
    &&& (resp.messages@[0] matches ChainMsg::Redelegate {
        src_validator: s,
        dst_validator: d,
        amount: c,
    } && s == src_validator && d == dst_validator && c.denom@ == chain.bonded_denom@
        && c.amount == amount)
    &&& resp.attributes@.len() == 5
    &&& resp.attributes@[0].key@ == "action"@ && resp.attributes@[0].value@ == "redelegate"@
    &&& resp.attributes@[1].key@ == "src_validator"@
        && resp.attributes@[1].value@ == src_validator@
    &&& resp.attributes@[2].key@ == "dst_validator"@
        && resp.attributes@[2].value@ == dst_validator@
    &&& resp.attributes@[3].key@ == "denom"@ && resp.attributes@[3].value@ == chain.bonded_denom@
    &&& resp.attributes@[4].key@ == "amount"@ && resp.attributes@[4].value@ == dec_str(
        amount as nat,
    )
}

/// Moves delegated stake from one validator to another.
pub fn execute(
    state: &VaultState,
    info: &MessageInfo,
    chain: &ChainInfo,
    src_validator: String,
    dst_validator: String,
    amount: u128,
) -> (r: Result<Response, ContractError>)
    requires
        chain.wf(),
    ensures
        r is Ok <==> redelegate_accepted(
            *state,
            *info,
            *chain,
            src_validator@,
            dst_validator@,
            amount as int,
        ),
        r matches Ok(resp) ==> redelegate_response(resp, *chain, src_validator, dst_validator,
            amount),
        r is Err ==> redelegate_error(
            *state,
            *info,
            *chain,
            src_validator@,
            dst_validator@,
            amount as int,
            r->Err_0,
        ),
{
    if !(info.sender == state.owner) {
        return Err(ContractError::Unauthorized);
    }
    if amount == 0 {
        return Err(ContractError::InvalidRedelegationAmount);
    }
    if src_validator == dst_validator {
        return Err(ContractError::RedelegateToSameValidator);
    }
    if let Some(debt) = &state.outstanding_debt {
        if debt.denom == chain.bonded_denom {
            return Err(ContractError::OutstandingDebt { amount: debt.clone() });
        }
    }
    let idx = match find_delegation(&chain.delegations, &src_validator) {
        Some(i) => i,
        None => {
            return Err(ContractError::DelegationNotFound { validator: src_validator });
        },
    };
    proof {
        let w = delegation_index(chain.delegations@, src_validator@);
        assert(chain.delegations@[w].validator@ == src_validator@);
        assert(w == idx as int);
    }
    let delegated = chain.delegations[idx].amount.amount;
    if delegated < amount {
        return Err(ContractError::InsufficientDelegatedBalance {
            validator: src_validator,
            delegated,
            requested: amount,
        });
    }
    if !validator_exists(&chain.validators, &dst_validator) {
        return Err(ContractError::ValidatorNotFound { validator: dst_validator });
    }

    let mut messages: Vec<ChainMsg> = Vec::new();
    messages.push(ChainMsg::Redelegate {
        src_validator: src_validator.clone(),
        dst_validator: dst_validator.clone(),
        amount: Coin { denom: chain.bonded_denom.clone(), amount },
    });
    let mut attributes: Vec<Attribute> = Vec::new();
    attributes.push(attr("action", "redelegate"));
    attributes.push(Attribute { key: "src_validator".to_owned(), value: src_validator });
    attributes.push(Attribute { key: "dst_validator".to_owned(), value: dst_validator });
    attributes.push(Attribute { key: "denom".to_owned(), value: chain.bonded_denom.clone() });
    attributes.push(Attribute { key: "amount".to_owned(), value: decimal_string(amount) });
    Ok(Response { messages, attributes })
}

} // verus!
