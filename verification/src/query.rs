//! The information query: the vault's owner, lender, terms and book.

use vstd::prelude::*;
use vstd::string::StringExecFns;
use crate::msg::QueryMsg;
use crate::state::VaultState;
use crate::types::{CounterOffer, InfoResponse};

verus! {

/// What the information response reports of a state.
pub open spec fn info_describes(r: InfoResponse, state: VaultState) -> bool {
    &&& r.message@ == "wasm_vault"@
    &&& r.owner == state.owner
    &&& r.lender == state.lender
    &&& r.open_interest == state.open_interest
    &&& if state.counter_offers@.len() == 0 {
        r.counter_offers is None
    } else {
        r.counter_offers matches Some(v) && v@ == state.counter_offers@
    }
}

/// Builds the information response for a state.
pub fn query_info(state: &VaultState) -> (r: InfoResponse)
    ensures
        info_describes(r, *state),
{
    let n = state.counter_offers.len();
    let mut collected: Vec<CounterOffer> = Vec::new();
    for k in 0..n
        invariant
            n == state.counter_offers@.len(),
            collected@ == state.counter_offers@.take(k as int),
    {
        proof {
            assert(state.counter_offers@.take(k + 1).drop_last()
                =~= state.counter_offers@.take(k as int));
            assert(state.counter_offers@.take(k + 1).last() == state.counter_offers@[k as int]);
            assert(state.counter_offers@.take(k as int).push(state.counter_offers@[k as int])
                =~= state.counter_offers@.take(k + 1));
        }
        collected.push(state.counter_offers[k].clone());
    }
    proof {
        assert(state.counter_offers@.take(n as int) =~= state.counter_offers@);
    }
    let counter_offers = if collected.len() == 0 {
        None
    } else {
        Some(collected)
    };
    InfoResponse {
        message: String::from_str("wasm_vault"),
        owner: state.owner.clone(),
        lender: match &state.lender {
            Some(l) => Some(l.clone()),
            None => None,
        },
        open_interest: match &state.open_interest {
            Some(oi) => Some(oi.clone()),
            None => None,
        },
        counter_offers,
    }
}

/// Answers one query against a state.
pub fn query(state: &VaultState, msg: QueryMsg) -> (r: InfoResponse)
    ensures
        msg is Info ==> info_describes(r, *state),
{
    match msg {
        QueryMsg::Info => query_info(state),
    }
}

} // verus!
