//! A single-position lending vault.
//!
//! An owner posts loan terms (an "open interest"), prospective lenders compete
//! through escrowed counter offers held in a bounded book, a winning lender
//! funds the position, and the position is later repaid or liquidated.
//!
//! Every operation is a pure transition on a [`state::VaultState`] value: the
//! caller supplies the message sender, the attached funds, and a snapshot of
//! the chain data the decision needs, and receives the ordered list of
//! outgoing instructions to dispatch after the transition commits.

pub mod counter_offer;
pub mod decimal;
pub mod delegate;
pub mod error;
pub mod execute;
pub mod helpers;
pub mod instantiate;
pub mod laws;
pub mod liquidation;
pub mod msg;
pub mod open_interest;
pub mod query;
pub mod redelegate;
pub mod repay;
pub mod staking;
pub mod state;
pub mod transfer;
pub mod types;
pub mod undelegate;
pub mod vote;
pub mod withdraw;

pub use error::ContractError;
pub use state::VaultState;
pub use types::Coin;
pub use types::OpenInterest;
