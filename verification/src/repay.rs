//! Voluntary full settlement of a funded position by the owner.

use vstd::prelude::*;
use crate::error::ContractError;
use crate::helpers::{balance_of, query_balance, require_owner};
use crate::open_interest::{
    build_repayment_amounts, oi_attrs_prefix, repayment_merged, repayment_overflows,
};
use crate::state::VaultState;
use crate::types::{
    Attribute, ChainInfo, ChainMsg, Coin, MessageInfo, OpenInterest, Response,
};

verus! {

/// The totals owed at repayment: merged when liquidity and interest share a
/// denomination, otherwise liquidity first and interest second.
pub open spec fn repay_totals(oi: OpenInterest) -> Seq<Coin> {
    if repayment_merged(oi) {
        seq![
            Coin {
                denom: oi.liquidity_coin.denom,
                amount: (oi.liquidity_coin.amount + oi.interest_coin.amount) as u128,
            },
        ]
    } else {
        seq![oi.liquidity_coin, oi.interest_coin]
    }
}

/// Whether the snapshot covers every repayment total.
pub open spec fn repay_covered(chain: ChainInfo, oi: OpenInterest) -> bool {
    forall|k: int|
        0 <= k < repay_totals(oi).len()
            ==> balance_of(chain.balances@, (#[trigger] repay_totals(oi)[k]).denom@)
                >= repay_totals(oi)[k].amount as int
}

/// Every condition a repay call checks, in force exactly when it succeeds.
pub open spec fn repay_accepted(pre: VaultState, info: MessageInfo, chain: ChainInfo) -> bool {
    &&& info.sender@ == pre.owner@
    &&& pre.outstanding_debt is None
    &&& pre.open_interest is Some
    &&& pre.lender is Some
    &&& !repayment_overflows(pre.open_interest->Some_0)
    &&& repay_covered(chain, pre.open_interest->Some_0)
}

/// Which error a failing repay call returns, following the order in which
/// the conditions are checked.
pub open spec fn repay_error(
    pre: VaultState,
    info: MessageInfo,
    chain: ChainInfo,
    e: ContractError,
) -> bool {
    let oi = pre.open_interest->Some_0;
    let totals = repay_totals(oi);
    if info.sender@ != pre.owner@ {
        e is Unauthorized
    } else if pre.outstanding_debt is Some {
        (e matches ContractError::OutstandingDebt { amount }
            && amount == pre.outstanding_debt->Some_0)
    } else if pre.open_interest is None {
        e is NoOpenInterest
    } else if pre.lender is None {
        e is NoLender
    } else if repayment_overflows(oi) {
        (e matches ContractError::RepaymentAmountOverflow {
            denom,
            liquidity_amount,
            interest_amount,
        } && denom@ == oi.liquidity_coin.denom@
            && liquidity_amount == oi.liquidity_coin.amount
            && interest_amount == oi.interest_coin.amount)
    } else if balance_of(chain.balances@, totals[0].denom@) < totals[0].amount as int {
        (e matches ContractError::InsufficientBalance { denom, available, requested }
            && denom@ == totals[0].denom@
            && available as int == balance_of(chain.balances@, totals[0].denom@)
            && requested == totals[0].amount)
    } else {
        totals.len() == 2 && balance_of(chain.balances@, totals[1].denom@)
            < totals[1].amount as int && (e matches ContractError::InsufficientBalance {
            denom,
            available,
            requested,
        } && denom@ == totals[1].denom@
            && available as int == balance_of(chain.balances@, totals[1].denom@)
            && requested == totals[1].amount)
    }
}

/// Settles a funded position in full: the owed totals travel to the lender
/// in one batched transfer, and terms, lender and expiry are cleared.
///
/// Fails while any outstanding debt remains, so a partially liquidated
/// position must settle its debt first.
#[verifier::loop_isolation(false)]
pub fn repay(state: &mut VaultState, info: &MessageInfo, chain: &ChainInfo) -> (r: Result<
    Response,
    ContractError,
>)
    requires
        old(state).wf(),
    ensures
        final(state).wf(),
        r is Ok <==> repay_accepted(*old(state), *info, *chain),
        r matches Ok(resp) ==> *final(state) == (VaultState {
            open_interest: None,
            lender: None,
            open_interest_expiry: None,
            ..*old(state)
        }) && resp.messages@.len() == 1
            && (resp.messages@[0] matches ChainMsg::Send { to_address, amount }
                && to_address == old(state).lender->Some_0
                && amount@ == repay_totals(old(state).open_interest->Some_0))
            && resp.attributes@.len() == 9
            && oi_attrs_prefix(
                resp.attributes@,
                "repay_open_interest"@,
                old(state).open_interest->Some_0,
            )
            && resp.attributes@[8].key@ == "lender"@
            && resp.attributes@[8].value@ == old(state).lender->Some_0@,
        r is Err ==> *final(state) == *old(state) && repay_error(*old(state), *info, *chain, r->Err_0),
{
    match require_owner(state, &info.sender) {
        Err(e) => {
            return Err(e);
        },
        Ok(_) => {},
    }
    if let Some(debt) = &state.outstanding_debt {
        return Err(ContractError::OutstandingDebt { amount: debt.clone() });
    }
    let open_interest = match &state.open_interest {
        Some(oi) => oi.clone(),
        None => {
            return Err(ContractError::NoOpenInterest);
        },
    };
    let lender = match &state.lender {
        Some(l) => l.clone(),
        None => {
            return Err(ContractError::NoLender);
        },
    };
    let totals = match build_repayment_amounts(&open_interest) {
        Ok(v) => v,
        Err(e) => {
            return Err(e);
        },
    };

    let n = totals.len();
    for k in 0..n
        invariant
            n == totals@.len(),
            totals@ == repay_totals(open_interest),
            forall|m: int|
                0 <= m < k ==> balance_of(chain.balances@, (#[trigger] totals@[m]).denom@)
                    >= totals@[m].amount as int,
    {
        let available = query_balance(chain, &totals[k].denom);
        if available < totals[k].amount {
            return Err(ContractError::InsufficientBalance {
                denom: totals[k].denom.clone(),
                available,
                requested: totals[k].amount,
            });
        }
    }

    state.open_interest = None;
    state.lender = None;
    state.open_interest_expiry = None;

    let mut attributes = crate::open_interest::open_interest_attributes(
        "repay_open_interest",
        &open_interest,
    );
    attributes.push(Attribute { key: "lender".to_owned(), value: lender.clone() });
    let mut messages: Vec<ChainMsg> = Vec::new();
    messages.push(ChainMsg::Send { to_address: lender, amount: totals });
    Ok(Response { messages, attributes })
}

} // verus!
