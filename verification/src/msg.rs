//! The message surface of the vault: instantiation, the execute variants,
//! and the query.

use vstd::prelude::*;
use crate::types::{OpenInterest, VoteOption, WeightedVoteOption};

verus! {

/// Instantiation parameters: an optional explicit owner (the caller
/// otherwise) and an optional override of the liquidation unbonding delay.
#[derive(Debug)]
pub struct InstantiateMsg {
    pub owner: Option<String>,
    pub liquidation_unbonding_duration: Option<u64>,
}

/// One call into the vault.
#[derive(Debug)]
pub enum ExecuteMsg {
    Noop,
    Delegate { validator: String, amount: u128 },
    Undelegate { validator: String, amount: u128 },
    Redelegate { src_validator: String, dst_validator: String, amount: u128 },
    ClaimDelegatorRewards,
    Withdraw { denom: String, amount: u128, recipient: Option<String> },
    Vote { proposal_id: u64, option: VoteOption },
    VoteWeighted { proposal_id: u64, options: Vec<WeightedVoteOption> },
    TransferOwnership { new_owner: String },
    OpenInterest(OpenInterest),
    FundOpenInterest(OpenInterest),
    ProposeCounterOffer(OpenInterest),
    AcceptCounterOffer { proposer: String, open_interest: OpenInterest },
    CancelCounterOffer,
    CloseOpenInterest,
    RepayOpenInterest,
    Liquidate,
}

/// One question to the vault.
#[derive(Debug, PartialEq, Eq, Structural, Clone, Copy)]
pub enum QueryMsg {
    Info,
}

} // verus!
