//! Staking operations that respect the escrow: delegation that reserves the
//! outstanding debt, and claiming delegator rewards.

pub mod claim;
pub mod delegate;
