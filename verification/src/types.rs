//! The plain data the vault works on: coins, loan terms, counter offers,
//! message metadata, chain snapshots, and the response every operation
//! returns.

use vstd::prelude::*;

verus! {

/// An amount of one token denomination.
///
/// Amounts use the chain's transfer width (`u128`); every sum the vault
/// computes is checked and reports an overflow error instead of wrapping.
#[derive(Debug, PartialEq)]
pub struct Coin {
    pub denom: String,
    pub amount: u128,
}

impl Clone for Coin {
    fn clone(&self) -> (res: Self)
        ensures
            res == *self,
    {
        Coin { denom: self.denom.clone(), amount: self.amount }
    }
}

impl Coin {
    pub fn new(amount: u128, denom: &str) -> (res: Self)
        ensures
            res.amount == amount,
            res.denom@ == denom@,
    {
        Coin { denom: denom.to_owned(), amount }
    }

    /// Whether two coins agree on both denomination and amount.
    pub fn same_as(&self, other: &Coin) -> (r: bool)
        ensures
            r == coin_matches(*self, *other),
    {
        self.denom == other.denom && self.amount == other.amount
    }
}

/// Spec-level coin equality: same denomination text, same amount.
pub open spec fn coin_matches(a: Coin, b: Coin) -> bool {
    a.denom@ == b.denom@ && a.amount == b.amount
}

/// The posted loan terms for the vault's single active position.
#[derive(Debug, PartialEq)]
pub struct OpenInterest {
    /// Coin the borrower wants to receive as liquidity.
    pub liquidity_coin: Coin,
    /// Coin used to pay interest back to the lender.
    pub interest_coin: Coin,
    /// Time (in seconds) before a funded position expires.
    pub expiry_duration: u64,
    /// Collateral provided to secure the open interest.
    pub collateral: Coin,
}

impl Clone for OpenInterest {
    fn clone(&self) -> (res: Self)
        ensures
            res == *self,
    {
        OpenInterest {
            liquidity_coin: self.liquidity_coin.clone(),
            interest_coin: self.interest_coin.clone(),
            expiry_duration: self.expiry_duration,
            collateral: self.collateral.clone(),
        }
    }
}

/// Spec-level equality of two term records.
pub open spec fn interest_matches(a: OpenInterest, b: OpenInterest) -> bool {
    &&& coin_matches(a.liquidity_coin, b.liquidity_coin)
    &&& coin_matches(a.interest_coin, b.interest_coin)
    &&& a.expiry_duration == b.expiry_duration
    &&& coin_matches(a.collateral, b.collateral)
}

impl OpenInterest {
    /// Whether two term records are equal in every field.
    pub fn same_as(&self, other: &OpenInterest) -> (r: bool)
        ensures
            r == interest_matches(*self, *other),
    {
        self.liquidity_coin.same_as(&other.liquidity_coin)
            && self.interest_coin.same_as(&other.interest_coin)
            && self.expiry_duration == other.expiry_duration
            && self.collateral.same_as(&other.collateral)
    }
}

/// One entry of the counter-offer book: a proposer and the terms it offers.
#[derive(Debug, PartialEq)]
pub struct CounterOffer {
    /// Address of the lender proposing a change.
    pub proposer: String,
    /// Proposed open interest terms. Only the liquidity amount deviates.
    pub open_interest: OpenInterest,
}

impl Clone for CounterOffer {
    fn clone(&self) -> (res: Self)
        ensures
            res == *self,
    {
        CounterOffer {
            proposer: self.proposer.clone(),
            open_interest: self.open_interest.clone(),
        }
    }
}

/// Who called the operation and which coins the call carried along.
#[derive(Debug)]
pub struct MessageInfo {
    pub sender: String,
    pub funds: Vec<Coin>,
}

/// The block context of the call. Times are in seconds.
#[derive(Debug, Clone, Copy)]
pub struct Env {
    pub block_time: u64,
}

/// One delegation the vault holds with a validator.
#[derive(Debug)]
pub struct Delegation {
    pub validator: String,
    pub amount: Coin,
}

/// A snapshot of the chain data an operation may consult: the vault's bank
/// balances, its claimable staking rewards (already rounded down to whole
/// coins), its delegations, the known validators, and the staking
/// denomination.
#[derive(Debug)]
pub struct ChainInfo {
    pub bonded_denom: String,
    pub balances: Vec<Coin>,
    pub rewards: Vec<Coin>,
    pub delegations: Vec<Delegation>,
    pub validators: Vec<String>,
}

impl ChainInfo {
    /// A usable snapshot lists each balance denomination once and each
    /// delegated validator once.
    pub open spec fn wf(self) -> bool {
        &&& forall|i: int, j: int|
                0 <= i < j < self.balances@.len()
                    ==> self.balances@[i].denom@ != self.balances@[j].denom@
        &&& forall|i: int, j: int|
                0 <= i < j < self.delegations@.len()
                    ==> self.delegations@[i].validator@ != self.delegations@[j].validator@
    }
}

/// A governance vote choice.
#[derive(Debug, PartialEq, Eq, Structural, Clone, Copy)]
pub enum VoteOption {
    Yes,
    No,
    Abstain,
    NoWithVeto,
}

/// One choice of a weighted governance vote. The weight is a fixed-point
/// fraction in units of 10^-18.
#[derive(Debug, PartialEq)]
pub struct WeightedVoteOption {
    pub option: VoteOption,
    pub weight_atomics: u128,
}

impl Clone for WeightedVoteOption {
    fn clone(&self) -> (res: Self)
        ensures
            res == *self,
    {
        WeightedVoteOption { option: self.option, weight_atomics: self.weight_atomics }
    }
}

/// An outgoing instruction. The host executes the instructions of one
/// response after the call commits, in list order; the vault relies on that
/// order (reward withdrawals stand before the payment they back).
#[derive(Debug, PartialEq)]
pub enum ChainMsg {
    /// Transfer coins from the vault to an address.
    Send { to_address: String, amount: Vec<Coin> },
    /// Delegate stake to a validator.
    Delegate { validator: String, amount: Coin },
    /// Undelegate stake from a validator.
    Undelegate { validator: String, amount: Coin },
    /// Move stake between validators.
    Redelegate { src_validator: String, dst_validator: String, amount: Coin },
    /// Withdraw the pending delegator rewards from one validator.
    WithdrawDelegatorReward { validator: String },
    /// Cast a governance vote.
    Vote { proposal_id: u64, option: VoteOption },
    /// Cast a weighted governance vote.
    VoteWeighted { proposal_id: u64, options: Vec<WeightedVoteOption> },
}

/// One informational key/value pair of a response.
#[derive(Debug, PartialEq)]
pub struct Attribute {
    pub key: String,
    pub value: String,
}

impl Clone for Attribute {
    fn clone(&self) -> (res: Self)
        ensures
            res == *self,
    {
        Attribute { key: self.key.clone(), value: self.value.clone() }
    }
}

/// Builds one attribute.
pub fn attr(key: &str, value: &str) -> (res: Attribute)
    ensures
        res.key@ == key@,
        res.value@ == value@,
{
    Attribute { key: key.to_owned(), value: value.to_owned() }
}

/// What a successful operation hands back: the ordered outgoing instructions
/// and informational attributes.
#[derive(Debug)]
pub struct Response {
    pub messages: Vec<ChainMsg>,
    pub attributes: Vec<Attribute>,
}

impl Response {
    pub fn new() -> (res: Self)
        ensures
            res.messages@ == Seq::<ChainMsg>::empty(),
            res.attributes@ == Seq::<Attribute>::empty(),
    {
        Response { messages: Vec::new(), attributes: Vec::new() }
    }
}

/// The answer to an information query.
#[derive(Debug)]
pub struct InfoResponse {
    pub message: String,
    pub owner: String,
    pub lender: Option<String>,
    pub open_interest: Option<OpenInterest>,
    pub counter_offers: Option<Vec<CounterOffer>>,
}

} // verus!
