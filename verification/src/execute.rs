//! The single entry point that routes a call to its operation.

use vstd::prelude::*;
use crate::counter_offer;
use crate::delegate;
use crate::error::ContractError;
use crate::liquidation;
use crate::msg::ExecuteMsg;
use crate::open_interest;
use crate::redelegate;
use crate::repay;
use crate::staking;
use crate::state::VaultState;
use crate::transfer;
use crate::types::{ChainInfo, Env, MessageInfo, Response};
use crate::undelegate;
use crate::vote;
use crate::withdraw;

verus! {

/// What each routed call promises: the exact contract of the operation the
/// message names.
pub open spec fn execute_outcome(
    pre: VaultState,
    post: VaultState,
    env: Env,
    info: MessageInfo,
    chain: ChainInfo,
    msg: ExecuteMsg,
    r: Result<Response, ContractError>,
) -> bool {
    match msg {
        ExecuteMsg::Noop => {
            &&& post == pre
            &&& r matches Ok(resp) && resp.messages@.len() == 0 && resp.attributes@.len() == 0
        },
        ExecuteMsg::Delegate { validator, amount } => {
            &&& post == pre
            &&& (r is Ok <==> staking::delegate::delegate_accepted(
                pre,
                info,
                chain,
                validator@,
                amount as int,
            ))
            &&& (r matches Ok(resp) ==> delegate::delegate_response(resp, chain, validator, amount))
            &&& (r is Err ==> staking::delegate::delegate_error(
                pre,
                info,
                chain,
                validator@,
                amount as int,
                r->Err_0,
            ))
        },
        ExecuteMsg::Undelegate { validator, amount } => {
            &&& post == pre
            &&& (r is Ok <==> undelegate::undelegate_accepted(
                pre,
                info,
                chain,
                validator@,
                amount as int,
            ))
            &&& (r matches Ok(resp) ==> undelegate::undelegate_response(
                resp,
                chain,
                validator,
                amount,
            ))
            &&& (r is Err ==> undelegate::undelegate_error(
                pre,
                info,
                chain,
                validator@,
                amount as int,
                r->Err_0,
            ))
        },
        ExecuteMsg::Redelegate { src_validator, dst_validator, amount } => {
            &&& post == pre
            &&& (r is Ok <==> redelegate::redelegate_accepted(
                pre,
                info,
                chain,
                src_validator@,
                dst_validator@,
                amount as int,
            ))
            &&& (r matches Ok(resp) ==> redelegate::redelegate_response(
                resp,
                chain,
                src_validator,
                dst_validator,
                amount,
            ))
            &&& (r is Err ==> redelegate::redelegate_error(
                pre,
                info,
                chain,
                src_validator@,
                dst_validator@,
                amount as int,
                r->Err_0,
            ))
        },
        ExecuteMsg::ClaimDelegatorRewards => {
            &&& post == pre
            &&& (r is Ok <==> info.sender@ == pre.owner@ && chain.delegations@.len() > 0)
            &&& (r matches Ok(resp) ==> staking::claim::claim_response(resp, chain))
            &&& (r is Err ==> if info.sender@ != pre.owner@ {
                r->Err_0 is Unauthorized
            } else {
                r->Err_0 is NoDelegations
            })
        },
        ExecuteMsg::Withdraw { denom, amount, recipient } => {
            &&& post == pre
            &&& (r is Ok <==> info.sender@ == pre.owner@ && amount > 0
                && !withdraw::withdraw_lock_overflows(chain, denom@, pre.open_interest)
                && withdraw::withdrawable(pre, chain, denom@) >= amount as int)
            &&& (r matches Ok(resp) ==> withdraw::withdraw_response(
                resp,
                pre,
                denom,
                amount,
                recipient,
            ))
            &&& (r is Err ==> withdraw::withdraw_error(
                pre,
                info,
                chain,
                denom@,
                amount as int,
                r->Err_0,
            ))
        },
        ExecuteMsg::Vote { proposal_id, option } => {
            &&& post == pre
            &&& (r is Ok <==> info.sender@ == pre.owner@)
            &&& (r matches Ok(resp) ==> vote::vote_response(resp, proposal_id, option))
            &&& (r is Err ==> r->Err_0 is Unauthorized)
        },
        ExecuteMsg::VoteWeighted { proposal_id, options } => {
            &&& post == pre
            &&& (r is Ok <==> info.sender@ == pre.owner@)
            &&& (r matches Ok(resp) ==> vote::weighted_vote_response(resp, proposal_id, options))
            &&& (r is Err ==> r->Err_0 is Unauthorized)
        },
        ExecuteMsg::TransferOwnership { new_owner } => {
            &&& (r is Ok <==> info.sender@ == pre.owner@ && new_owner@ != pre.owner@)
            &&& (r is Ok ==> post == VaultState { owner: new_owner, ..pre })
            &&& (r is Err ==> post == pre && if info.sender@ != pre.owner@ {
                r->Err_0 is Unauthorized
            } else {
                r->Err_0 is OwnershipUnchanged
            })
        },
        ExecuteMsg::OpenInterest(terms) => {
            &&& (r is Ok <==> open_interest::open_accepted(pre, info, chain, terms))
            &&& (r is Ok ==> post == VaultState { open_interest: Some(terms), ..pre })
            &&& (r is Err ==> post == pre && open_interest::open_error(
                pre,
                info,
                chain,
                terms,
                r->Err_0,
            ))
        },
        ExecuteMsg::FundOpenInterest(expected) => {
            &&& (r is Ok <==> open_interest::fund_accepted(pre, info, expected))
            &&& (r matches Ok(resp) ==> open_interest::fund_applied(pre, post, resp, env, info))
            &&& (r is Err ==> post == pre && open_interest::fund_error(
                pre,
                info,
                expected,
                r->Err_0,
            ))
        },
        ExecuteMsg::ProposeCounterOffer(offer) => {
            &&& (r is Ok <==> counter_offer::propose_accepted(pre, info, offer))
            &&& (r matches Ok(resp) ==> counter_offer::propose_applied(pre, post, resp, info, offer))
            &&& (r is Err ==> post == pre && counter_offer::propose_error(
                pre,
                info,
                offer,
                r->Err_0,
            ))
        },
        ExecuteMsg::AcceptCounterOffer { proposer, open_interest: expected } => {
            &&& (r is Ok <==> counter_offer::accept_accepted(pre, info, proposer@, expected))
            &&& (r matches Ok(resp) ==> counter_offer::accept_applied(pre, post, resp, env, proposer))
            &&& (r is Err ==> post == pre && counter_offer::accept_error(
                pre,
                info,
                proposer@,
                expected,
                r->Err_0,
            ))
        },
        ExecuteMsg::CancelCounterOffer => {
            &&& (r is Ok <==> pre.open_interest is Some && crate::state::book_has_proposer(
                pre.counter_offers@,
                info.sender@,
            ))
            &&& (r matches Ok(resp) ==> counter_offer::cancel_applied(pre, post, resp, info.sender))
            &&& (r is Err ==> post == pre && if pre.open_interest is None {
                r->Err_0 is NoOpenInterest
            } else {
                (r->Err_0 matches ContractError::CounterOfferNotFound { proposer }
                    && proposer@ == info.sender@)
            })
        },
        ExecuteMsg::CloseOpenInterest => {
            &&& (r is Ok <==> info.sender@ == pre.owner@ && pre.lender is None
                && pre.open_interest is Some)
            &&& (r matches Ok(resp) ==> open_interest::book_refunded(
                VaultState { open_interest: None, ..pre },
                post,
                resp.messages@,
            ))
            &&& (r is Err ==> post == pre && open_interest::close_error(pre, info, r->Err_0))
        },
        ExecuteMsg::RepayOpenInterest => {
            &&& (r is Ok <==> repay::repay_accepted(pre, info, chain))
            &&& (r is Ok ==> post == VaultState {
                open_interest: None,
                lender: None,
                open_interest_expiry: None,
                ..pre
            })
            &&& (r is Err ==> post == pre && repay::repay_error(pre, info, chain, r->Err_0))
        },
        ExecuteMsg::Liquidate => {
            &&& (r is Ok <==> liquidation::liquidate_accepted(pre, env, info, chain))
            &&& (r matches Ok(resp) ==> liquidation::liquidate_applied(pre, post, resp, info, chain))
            &&& (r is Err ==> post == pre && liquidation::liquidate_error(
                pre,
                env,
                info,
                chain,
                r->Err_0,
            ))
        },
    }
}

/// Routes one call to its operation. Every route preserves the state
/// invariant and meets the routed operation's exact contract.
pub fn execute(
    state: &mut VaultState,
    env: &Env,
    info: &MessageInfo,
    chain: &ChainInfo,
    msg: ExecuteMsg,
) -> (r: Result<Response, ContractError>)
    requires
        old(state).wf(),
        chain.wf(),
        // Binding a lender stamps `block time + duration` as the expiry; the
        // caller rules the timestamp overflow out, as the host's own
        // timestamp arithmetic does.
        match msg {
            ExecuteMsg::FundOpenInterest(_) | ExecuteMsg::AcceptCounterOffer { .. } => {
                match old(state).open_interest {
                    Some(oi) => env.block_time + oi.expiry_duration <= u64::MAX,
                    None => true,
                }
            },
            _ => true,
        },
    ensures
        final(state).wf(),
        execute_outcome(*old(state), *final(state), *env, *info, *chain, msg, r),
{
    match msg {
        ExecuteMsg::Noop => Ok(Response::new()),
        ExecuteMsg::Delegate { validator, amount } => staking::delegate::execute(
            state,
            info,
            chain,
            validator,
            amount,
        ),
        ExecuteMsg::Undelegate { validator, amount } => undelegate::execute(
            state,
            info,
            chain,
            validator,
            amount,
        ),
        ExecuteMsg::Redelegate { src_validator, dst_validator, amount } => redelegate::execute(
            state,
            info,
            chain,
            src_validator,
            dst_validator,
            amount,
        ),
        ExecuteMsg::ClaimDelegatorRewards => staking::claim::execute(state, info, chain),
        ExecuteMsg::Withdraw { denom, amount, recipient } => withdraw::execute(
            state,
            info,
            chain,
            denom,
            amount,
            recipient,
        ),
        ExecuteMsg::Vote { proposal_id, option } => vote::execute_vote(
            state,
            info,
            proposal_id,
            option,
        ),
        ExecuteMsg::VoteWeighted { proposal_id, options } => vote::execute_weighted_vote(
            state,
            info,
            proposal_id,
            options,
        ),
        ExecuteMsg::TransferOwnership { new_owner } => transfer::execute(state, info, new_owner),
        ExecuteMsg::OpenInterest(terms) => open_interest::execute(state, info, chain, terms),
        ExecuteMsg::FundOpenInterest(expected) => open_interest::fund(state, env, info, expected),
        ExecuteMsg::ProposeCounterOffer(offer) => counter_offer::propose(state, info, offer),
        ExecuteMsg::AcceptCounterOffer { proposer, open_interest: expected } => {
            counter_offer::accept(state, env, info, proposer, expected)
        },
        ExecuteMsg::CancelCounterOffer => counter_offer::cancel(state, info),
        ExecuteMsg::CloseOpenInterest => open_interest::close(state, info),
        ExecuteMsg::RepayOpenInterest => repay::repay(state, info, chain),
        ExecuteMsg::Liquidate => liquidation::liquidate(state, env, info, chain),
    }
}

} // verus!
