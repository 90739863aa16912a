//! Handing the vault to a new owner.

use vstd::prelude::*;
use crate::error::ContractError;
use crate::state::VaultState;
use crate::types::{Attribute, MessageInfo, Response, attr};

verus! {

/// Transfers ownership of the vault. Only the current owner may call it,
/// and the new owner must differ from the current one.
pub fn execute(state: &mut VaultState, info: &MessageInfo, new_owner: String) -> (r: Result<
    Response,
    ContractError,
>)
    requires
        old(state).wf(),
    ensures
        final(state).wf(),
        r is Ok <==> info.sender@ == old(state).owner@ && new_owner@ != old(state).owner@,
        r matches Ok(resp) ==> *final(state) == (VaultState { owner: new_owner, ..*old(state) })
            && resp.messages@.len() == 0 && resp.attributes@.len() == 3
            && resp.attributes@[0].key@ == "action"@
            && resp.attributes@[0].value@ == "transfer_ownership"@
            && resp.attributes@[1].key@ == "previous_owner"@
            && resp.attributes@[1].value@ == old(state).owner@
            && resp.attributes@[2].key@ == "new_owner"@
            && resp.attributes@[2].value@ == new_owner@,
        r is Err ==> *final(state) == *old(state) && if info.sender@ != old(state).owner@ {
            r->Err_0 is Unauthorized
        } else {
            r->Err_0 is OwnershipUnchanged
        },
{
    if !(info.sender == state.owner) {
        return Err(ContractError::Unauthorized);
    }
    if new_owner == state.owner {
        return Err(ContractError::OwnershipUnchanged);
    }
    let previous = state.owner.clone();
    state.owner = new_owner.clone();

    let mut attributes: Vec<Attribute> = Vec::new();
    attributes.push(attr("action", "transfer_ownership"));
    attributes.push(Attribute { key: "previous_owner".to_owned(), value: previous });
    attributes.push(Attribute { key: "new_owner".to_owned(), value: new_owner });
    Ok(Response { messages: Vec::new(), attributes })
}

} // verus!
