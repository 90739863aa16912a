//! Plain stake undelegation: the owner withdraws stake from a validator.

use vstd::prelude::*;
use crate::decimal::{dec_str, decimal_string};
use crate::error::ContractError;
use crate::helpers::{delegation_index, find_delegation, has_delegation};
use crate::state::VaultState;
use crate::types::{Attribute, ChainInfo, ChainMsg, Coin, MessageInfo, Response, attr};

verus! {

/// Every condition an undelegation checks, in force exactly when it
/// succeeds: the owner asks a positive amount, a delegation with the
/// validator exists and holds at least that much.
pub open spec fn undelegate_accepted(
    pre: VaultState,
    info: MessageInfo,
    chain: ChainInfo,
    validator: Seq<char>,
    amount: int,
) -> bool {
    &&& info.sender@ == pre.owner@
    &&& amount > 0
    &&& has_delegation(chain.delegations@, validator)
    &&& chain.delegations@[delegation_index(chain.delegations@, validator)].amount.amount as int
        >= amount
}

/// Which error a failing undelegation returns, following the order in
/// which the conditions are checked.
pub open spec fn undelegate_error(
    pre: VaultState,
    info: MessageInfo,
    chain: ChainInfo,
    validator: Seq<char>,
    amount: int,
    e: ContractError,
) -> bool {
    if info.sender@ != pre.owner@ {
        e is Unauthorized
    } else if amount == 0 {
        e is InvalidUndelegationAmount
    } else if !has_delegation(chain.delegations@, validator) {
        (e matches ContractError::DelegationNotFound { validator: v } && v@ == validator)
    } else {
        (chain.delegations@[delegation_index(chain.delegations@, validator)].amount.amount as int)
            < amount && (e matches ContractError::InsufficientDelegatedBalance {
            validator: v,
            delegated,
            requested,
        } && v@ == validator
            && delegated as int == chain.delegations@[delegation_index(
                chain.delegations@,
                validator,
            )].amount.amount as int
            && requested as int == amount)
    }
}

/// The response a successful undelegation answers: one undelegate
/// instruction and the four attributes naming it.
pub open spec fn undelegate_response(
    resp: Response,
    chain: ChainInfo,
    validator: String,
    amount: u128,
) -> bool {
    &&& resp.messages@.len() == 1
    &&& (resp.messages@[0] matches ChainMsg::Undelegate { validator: v, amount: c }
        && v == validator && c.denom@ == chain.bonded_denom@ && c.amount == amount)
    &&& resp.attributes@.len() == 4
    &&& resp.attributes@[0].key@ == "action"@ && resp.attributes@[0].value@ == "undelegate"@
    &&& resp.attributes@[1].key@ == "validator"@ && resp.attributes@[1].value@ == validator@
    &&& resp.attributes@[2].key@ == "denom"@ && resp.attributes@[2].value@ == chain.bonded_denom@
    &&& resp.attributes@[3].key@ == "amount"@ && resp.attributes@[3].value@ == dec_str(
        amount as nat,
    )
}

/// Undelegates stake in the bonded denomination from a validator.
pub fn execute(
    state: &VaultState,
    info: &MessageInfo,
    chain: &ChainInfo,
    validator: String,
    amount: u128,
) -> (r: Result<Response, ContractError>)
    requires
        chain.wf(),
    ensures
        r is Ok <==> undelegate_accepted(*state, *info, *chain, validator@, amount as int),
        r matches Ok(resp) ==> undelegate_response(resp, *chain, validator, amount),
        r is Err ==> undelegate_error(*state, *info, *chain, validator@, amount as int, r->Err_0),
{
    if !(info.sender == state.owner) {
        return Err(ContractError::Unauthorized);
    }
    if amount == 0 {
        return Err(ContractError::InvalidUndelegationAmount);
    }
    let idx = match find_delegation(&chain.delegations, &validator) {
        Some(i) => i,
        None => {
            return Err(ContractError::DelegationNotFound { validator });
        },
    };
    proof {
        let w = delegation_index(chain.delegations@, validator@);
        assert(chain.delegations@[w].validator@ == validator@);
        assert(w == idx as int);
    }
    let delegated = chain.delegations[idx].amount.amount;
    if delegated < amount {
        return Err(ContractError::InsufficientDelegatedBalance {
            validator,
            delegated,
            requested: amount,
        });
    }

    let mut messages: Vec<ChainMsg> = Vec::new();
    messages.push(ChainMsg::Undelegate {
        validator: validator.clone(),
        amount: Coin { denom: chain.bonded_denom.clone(), amount },
    });
    let mut attributes: Vec<Attribute> = Vec::new();
    attributes.push(attr("action", "undelegate"));
    attributes.push(Attribute { key: "validator".to_owned(), value: validator });
    attributes.push(Attribute { key: "denom".to_owned(), value: chain.bonded_denom.clone() });
    attributes.push(Attribute { key: "amount".to_owned(), value: decimal_string(amount) });
    Ok(Response { messages, attributes })
}

} // verus!
