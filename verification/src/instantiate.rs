//! Creating a fresh vault.

use vstd::prelude::*;
use crate::msg::InstantiateMsg;
use crate::state::{DEFAULT_LIQUIDATION_UNBONDING_SECONDS, VaultState};
use crate::types::{Attribute, MessageInfo, Response, attr};

verus! {

/// Creates the vault's state: the named owner (the caller by default), no
/// position, an empty book, and the configured or default unbonding delay.
pub fn instantiate(info: &MessageInfo, msg: InstantiateMsg) -> (r: (VaultState, Response))
    ensures
        r.0.wf(),
        r.0.owner == match msg.owner {
            Some(o) => o,
            None => info.sender,
        },
        r.0.lender is None,
        r.0.outstanding_debt is None,
        r.0.open_interest is None,
        r.0.open_interest_expiry is None,
        r.0.counter_offers@.len() == 0,
        r.0.liquidation_unbonding_duration == match msg.liquidation_unbonding_duration {
            Some(d) => d,
            None => DEFAULT_LIQUIDATION_UNBONDING_SECONDS,
        },
        r.0.last_liquidation_unbonding is None,
        r.1.messages@.len() == 0,
        r.1.attributes@.len() == 2,
        r.1.attributes@[0].key@ == "method"@ && r.1.attributes@[0].value@ == "instantiate"@,
        r.1.attributes@[1].key@ == "owner"@ && r.1.attributes@[1].value@ == r.0.owner@,
{
    let owner = match msg.owner {
        Some(o) => o,
        None => info.sender.clone(),
    };
    let duration = match msg.liquidation_unbonding_duration {
        Some(d) => d,
        None => DEFAULT_LIQUIDATION_UNBONDING_SECONDS,
    };
    let mut attributes: Vec<Attribute> = Vec::new();
    attributes.push(attr("method", "instantiate"));
    attributes.push(Attribute { key: "owner".to_owned(), value: owner.clone() });
    let state = VaultState {
        owner,
        lender: None,
        outstanding_debt: None,
        open_interest: None,
        open_interest_expiry: None,
        counter_offers: Vec::new(),
        liquidation_unbonding_duration: duration,
        last_liquidation_unbonding: None,
    };
    (state, Response { messages: Vec::new(), attributes })
}

} // verus!
