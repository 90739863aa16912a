//! Governance-vote passthrough: the owner casts votes with the vault's
//! staked weight.

use vstd::prelude::*;
use crate::decimal::{dec_str, decimal_string};
use crate::error::ContractError;
use crate::state::VaultState;
use crate::types::{
    Attribute, ChainMsg, MessageInfo, Response, VoteOption, WeightedVoteOption, attr,
};

verus! {

/// The response a plain vote answers.
pub open spec fn vote_response(resp: Response, proposal_id: u64, option: VoteOption) -> bool {
    &&& resp.messages@.len() == 1
    &&& resp.messages@[0] == (ChainMsg::Vote { proposal_id, option })
    &&& resp.attributes@.len() == 3
    &&& resp.attributes@[0].key@ == "action"@ && resp.attributes@[0].value@ == "vote"@
    &&& resp.attributes@[1].key@ == "proposal_id"@ && resp.attributes@[1].value@ == dec_str(
        proposal_id as nat,
    )
    &&& resp.attributes@[2].key@ == "vote_type"@ && resp.attributes@[2].value@ == "standard"@
}

/// Casts a plain governance vote. Owner-only.
pub fn execute_vote(
    state: &VaultState,
    info: &MessageInfo,
    proposal_id: u64,
    option: VoteOption,
) -> (r: Result<Response, ContractError>)
    ensures
        r is Ok <==> info.sender@ == state.owner@,
        r matches Ok(resp) ==> vote_response(resp, proposal_id, option),
        r is Err ==> r->Err_0 is Unauthorized,
{
    if !(info.sender == state.owner) {
        return Err(ContractError::Unauthorized);
    }
    let mut messages: Vec<ChainMsg> = Vec::new();
    messages.push(ChainMsg::Vote { proposal_id, option });
    let mut attributes: Vec<Attribute> = Vec::new();
    attributes.push(attr("action", "vote"));
    attributes.push(Attribute {
        key: "proposal_id".to_owned(),
        value: decimal_string(proposal_id as u128),
    });
    attributes.push(attr("vote_type", "standard"));
    Ok(Response { messages, attributes })
}

/// The response a weighted vote answers.
pub open spec fn weighted_vote_response(
    resp: Response,
    proposal_id: u64,
    options: Vec<WeightedVoteOption>,
) -> bool {
    &&& resp.messages@.len() == 1
    &&& (resp.messages@[0] matches ChainMsg::VoteWeighted { proposal_id: p, options: o }
        && p == proposal_id && o@ == options@)
    &&& resp.attributes@.len() == 4
    &&& resp.attributes@[0].key@ == "action"@ && resp.attributes@[0].value@ == "vote"@
    &&& resp.attributes@[1].key@ == "proposal_id"@ && resp.attributes@[1].value@ == dec_str(
        proposal_id as nat,
    )
    &&& resp.attributes@[2].key@ == "vote_type"@ && resp.attributes@[2].value@ == "weighted"@
    &&& resp.attributes@[3].key@ == "option_count"@ && resp.attributes@[3].value@ == dec_str(
        options@.len() as nat,
    )
}

/// Casts a weighted governance vote. Owner-only.
pub fn execute_weighted_vote(
    state: &VaultState,
    info: &MessageInfo,
    proposal_id: u64,
    options: Vec<WeightedVoteOption>,
) -> (r: Result<Response, ContractError>)
    ensures
        r is Ok <==> info.sender@ == state.owner@,
        r matches Ok(resp) ==> weighted_vote_response(resp, proposal_id, options),
        r is Err ==> r->Err_0 is Unauthorized,
{
    if !(info.sender == state.owner) {
        return Err(ContractError::Unauthorized);
    }
    let option_count = options.len();
    let mut messages: Vec<ChainMsg> = Vec::new();
    messages.push(ChainMsg::VoteWeighted { proposal_id, options });
    let mut attributes: Vec<Attribute> = Vec::new();
    attributes.push(attr("action", "vote"));
    attributes.push(Attribute {
        key: "proposal_id".to_owned(),
        value: decimal_string(proposal_id as u128),
    });
    attributes.push(attr("vote_type", "weighted"));
    attributes.push(Attribute {
        key: "option_count".to_owned(),
        value: decimal_string(option_count as u128),
    });
    Ok(Response { messages, attributes })
}

} // verus!
