//! Claiming the vault's pending delegator rewards.

use vstd::prelude::*;
use crate::decimal::{dec_str, decimal_string};
use crate::error::ContractError;
use crate::helpers::require_owner;
use crate::state::VaultState;
use crate::types::{Attribute, ChainInfo, ChainMsg, MessageInfo, Response, attr};

verus! {

/// The response a successful claim answers: one withdrawal per delegation,
/// in delegation order.
pub open spec fn claim_response(resp: Response, chain: ChainInfo) -> bool {
    &&& resp.messages@.len() == chain.delegations@.len()
    &&& (forall|k: int|
        0 <= k < chain.delegations@.len() ==> (#[trigger] resp.messages@[k] matches
        ChainMsg::WithdrawDelegatorReward { validator }
            && validator == chain.delegations@[k].validator))
    &&& resp.attributes@.len() == 2
    &&& resp.attributes@[0].key@ == "action"@
        && resp.attributes@[0].value@ == "claim_delegator_rewards"@
    &&& resp.attributes@[1].key@ == "validator_count"@
        && resp.attributes@[1].value@ == dec_str(chain.delegations@.len() as nat)
}

/// Withdraws the pending rewards of every delegation. Owner-only; fails
/// when no delegations exist.
pub fn execute(state: &VaultState, info: &MessageInfo, chain: &ChainInfo) -> (r: Result<
    Response,
    ContractError,
>)
    ensures
        r is Ok <==> info.sender@ == state.owner@ && chain.delegations@.len() > 0,
        r matches Ok(resp) ==> claim_response(resp, *chain),
        r is Err ==> if info.sender@ != state.owner@ {
            r->Err_0 is Unauthorized
        } else {
            r->Err_0 is NoDelegations
        },
{
    match require_owner(state, &info.sender) {
        Err(e) => {
            return Err(e);
        },
        Ok(_) => {},
    }
    let nd = chain.delegations.len();
    if nd == 0 {
        return Err(ContractError::NoDelegations);
    }

    let mut attributes: Vec<Attribute> = Vec::new();
    attributes.push(attr("action", "claim_delegator_rewards"));
    attributes.push(Attribute {
        key: "validator_count".to_owned(),
        value: decimal_string(nd as u128),
    });
    let mut messages: Vec<ChainMsg> = Vec::new();
    for k in 0..nd
        invariant
            nd == chain.delegations@.len(),
            messages@.len() == k,
            forall|m: int|
                0 <= m < k ==> (#[trigger] messages@[m] matches
                ChainMsg::WithdrawDelegatorReward { validator }
                    && validator == chain.delegations@[m].validator),
    {
        messages.push(ChainMsg::WithdrawDelegatorReward {
            validator: chain.delegations[k].validator.clone(),
        });
    }
    Ok(Response { messages, attributes })
}

} // verus!
