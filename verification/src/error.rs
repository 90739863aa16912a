//! The error values every vault operation can return.
//!
//! Every failure aborts the whole call: an operation that returns an error
//! leaves the vault state exactly as it found it.

use vstd::prelude::*;
use crate::types::Coin;

verus! {

#[derive(Debug)]
pub enum ContractError {
    /// The caller is not entitled to this operation.
    Unauthorized,
    /// A transferred ownership must name a different owner.
    OwnershipUnchanged,
    /// Delegation amount must be greater than zero.
    InvalidDelegationAmount,
    /// The vault holds less of `denom` than the operation needs.
    InsufficientBalance { denom: String, available: u128, requested: u128 },
    /// Outstanding debt must be settled before this operation.
    OutstandingDebt { amount: Coin },
    /// No validator with this address is known to the chain.
    ValidatorNotFound { validator: String },
    /// Undelegation amount must be greater than zero.
    InvalidUndelegationAmount,
    /// Redelegation amount must be greater than zero.
    InvalidRedelegationAmount,
    /// Withdrawal amount must be greater than zero.
    InvalidWithdrawalAmount,
    /// Cannot redelegate to the same validator.
    RedelegateToSameValidator,
    /// The vault holds no delegation with this validator.
    DelegationNotFound { validator: String },
    /// The delegation with this validator is smaller than requested.
    InsufficientDelegatedBalance { validator: String, delegated: u128, requested: u128 },
    /// No delegations exist to claim rewards from.
    NoDelegations,
    /// An open interest is already active.
    OpenInterestAlreadyExists,
    /// No open interest is currently active.
    NoOpenInterest,
    /// A lender has already been set.
    LenderAlreadySet,
    /// No lender is bound to the position.
    NoLender,
    /// The named coin field must carry a positive amount.
    InvalidCoinAmount { field: String },
    /// The named coin field must carry a nonempty denomination.
    InvalidCoinDenom { field: String },
    /// Expiry duration must be greater than zero seconds.
    InvalidExpiryDuration,
    /// Counter offer terms must match the active open interest.
    CounterOfferTermsMismatch,
    /// Counter offer liquidity must be less than the active open interest.
    CounterOfferNotSmaller,
    /// The escrow attached to a counter offer must equal its liquidity amount.
    CounterOfferEscrowMismatch { denom: String, expected: u128, received: u128 },
    /// The funds attached to a funding call must equal the liquidity amount.
    OpenInterestFundingMismatch { denom: String, expected: u128, received: u128 },
    /// A funding request must repeat the active open interest exactly.
    OpenInterestMismatch,
    /// The proposer already has an active counter offer.
    CounterOfferAlreadyExists,
    /// The book is full and the offer does not beat the current minimum.
    CounterOfferNotCompetitive { minimum: u128, denom: String },
    /// No counter offer is stored for this proposer.
    CounterOfferNotFound { proposer: String },
    /// The stored counter offer differs from the payload the caller sent.
    CounterOfferMismatch { proposer: String },
    /// Cannot undelegate while an open interest is active.
    UndelegateWhileOpenInterestActive,
    /// This operation does not accept attached funds.
    FundsNotAccepted,
    /// The liquidation has not reached its expiry time yet.
    OpenInterestNotExpired,
    /// Stored outstanding debt does not carry the collateral denomination.
    OutstandingDebtDenomMismatch { expected: String, found: String },
    /// The repayment total for `denom` exceeds the transfer width.
    RepaymentAmountOverflow { denom: String, liquidity_amount: u128, interest_amount: u128 },
    /// Adding a new escrow to the outstanding debt would overflow.
    OutstandingDebtOverflow { denom: String, current: u128, additional: u128 },
    /// An internal checked sum over chain data exceeded the transfer width.
    ArithmeticOverflow { denom: String },
}

} // verus!
