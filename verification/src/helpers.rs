//! Shared checks and checked sums over attached funds and chain snapshots.

use vstd::prelude::*;
use crate::error::ContractError;
use crate::state::VaultState;
use crate::types::{ChainInfo, Coin, Delegation, OpenInterest};

verus! {

/// The sum of the amounts of the coins carrying this denomination.
pub open spec fn funds_sum(coins: Seq<Coin>, denom: Seq<char>) -> int
    decreases coins.len(),
{
    if coins.len() == 0 {
        0
    } else {
        funds_sum(coins.drop_last(), denom)
            + if coins.last().denom@ == denom { coins.last().amount as int } else { 0 }
    }
}

/// The sum of the amounts of all coins, whatever their denomination.
pub open spec fn coins_total(coins: Seq<Coin>) -> int
    decreases coins.len(),
{
    if coins.len() == 0 {
        0
    } else {
        coins_total(coins.drop_last()) + coins.last().amount
    }
}

/// The sum of the delegated amounts carrying this denomination.
pub open spec fn delegations_sum(dels: Seq<Delegation>, denom: Seq<char>) -> int
    decreases dels.len(),
{
    if dels.len() == 0 {
        0
    } else {
        delegations_sum(dels.drop_last(), denom)
            + if dels.last().amount.denom@ == denom { dels.last().amount.amount as int } else { 0 }
    }
}

/// The balance the snapshot records for a denomination (zero when absent).
pub open spec fn balance_of(coins: Seq<Coin>, denom: Seq<char>) -> int
    decreases coins.len(),
{
    if coins.len() == 0 {
        0
    } else if coins.first().denom@ == denom {
        coins.first().amount as int
    } else {
        balance_of(coins.drop_first(), denom)
    }
}

/// A value clipped to the transfer width.
pub open spec fn cap_u128(x: int) -> int {
    if x <= u128::MAX as int { x } else { u128::MAX as int }
}

/// A filtered coin sum is never negative.
pub proof fn lemma_funds_sum_nonneg(coins: Seq<Coin>, denom: Seq<char>)
    ensures
        funds_sum(coins, denom) >= 0,
    decreases coins.len(),
{
    if coins.len() > 0 {
        lemma_funds_sum_nonneg(coins.drop_last(), denom);
    }
}

/// A total coin sum is never negative.
pub proof fn lemma_coins_total_nonneg(coins: Seq<Coin>)
    ensures
        coins_total(coins) >= 0,
    decreases coins.len(),
{
    if coins.len() > 0 {
        lemma_coins_total_nonneg(coins.drop_last());
    }
}

/// A delegation sum is never negative.
pub proof fn lemma_delegations_sum_nonneg(dels: Seq<Delegation>, denom: Seq<char>)
    ensures
        delegations_sum(dels, denom) >= 0,
    decreases dels.len(),
{
    if dels.len() > 0 {
        lemma_delegations_sum_nonneg(dels.drop_last(), denom);
    }
}

/// A prefix of a filtered coin sum never exceeds the whole sum.
pub proof fn lemma_funds_sum_take_le(coins: Seq<Coin>, denom: Seq<char>, i: int)
    requires
        0 <= i <= coins.len(),
    ensures
        funds_sum(coins.take(i), denom) <= funds_sum(coins, denom),
    decreases coins.len(),
{
    if i == coins.len() {
        assert(coins.take(i) =~= coins);
    } else {
        assert(coins.drop_last().take(i) =~= coins.take(i));
        lemma_funds_sum_take_le(coins.drop_last(), denom, i);
    }
}

/// A prefix of a total coin sum never exceeds the whole sum.
pub proof fn lemma_coins_total_take_le(coins: Seq<Coin>, i: int)
    requires
        0 <= i <= coins.len(),
    ensures
        coins_total(coins.take(i)) <= coins_total(coins),
    decreases coins.len(),
{
    if i == coins.len() {
        assert(coins.take(i) =~= coins);
    } else {
        assert(coins.drop_last().take(i) =~= coins.take(i));
        lemma_coins_total_take_le(coins.drop_last(), i);
    }
}

/// A prefix of a delegation sum never exceeds the whole sum.
pub proof fn lemma_delegations_sum_take_le(dels: Seq<Delegation>, denom: Seq<char>, i: int)
    requires
        0 <= i <= dels.len(),
    ensures
        delegations_sum(dels.take(i), denom) <= delegations_sum(dels, denom),
    decreases dels.len(),
{
    if i == dels.len() {
        assert(dels.take(i) =~= dels);
    } else {
        assert(dels.drop_last().take(i) =~= dels.take(i));
        lemma_delegations_sum_take_le(dels.drop_last(), denom, i);
    }
}

/// Sums the attached coins of one denomination. Returns the sum clipped at
/// the transfer width together with a flag saying whether clipping happened,
/// so callers comparing against an exact escrow can reject overlong funds.
pub fn sum_funds_capped(coins: &Vec<Coin>, denom: &String) -> (r: (u128, bool))
    ensures
        r.0 as int == cap_u128(funds_sum(coins@, denom@)),
        r.1 == (funds_sum(coins@, denom@) > u128::MAX as int),
{
    let n = coins.len();
    let mut acc: u128 = 0;
    let mut clipped: bool = false;
    for i in 0..n
        invariant
            n == coins@.len(),
            acc as int == cap_u128(funds_sum(coins@.take(i as int), denom@)),
            clipped == (funds_sum(coins@.take(i as int), denom@) > u128::MAX as int),
    {
        proof {
            assert(coins@.take(i + 1).drop_last() =~= coins@.take(i as int));
        }
        if coins[i].denom == *denom {
            let amt = coins[i].amount;
            if acc > u128::MAX - amt {
                acc = u128::MAX;
                clipped = true;
            } else {
                acc = acc + amt;
            }
        }
    }
    proof {
        assert(coins@.take(n as int) =~= coins@);
    }
    (acc, clipped)
}

/// Sums the claimable reward coins of one denomination; reports an overflow
/// of the transfer width.
pub fn query_staking_rewards_for_denom(rewards: &Vec<Coin>, denom: &String) -> (r: Result<
    u128,
    ContractError,
>)
    ensures
        match r {
            Ok(v) => v as int == funds_sum(rewards@, denom@),
            Err(e) => funds_sum(rewards@, denom@) > u128::MAX as int && (e matches
            ContractError::ArithmeticOverflow { denom: d } && d@ == denom@),
        },
{
    let n = rewards.len();
    let mut acc: u128 = 0;
    for i in 0..n
        invariant
            n == rewards@.len(),
            acc as int == funds_sum(rewards@.take(i as int), denom@),
    {
        proof {
            assert(rewards@.take(i + 1).drop_last() =~= rewards@.take(i as int));
        }
        if rewards[i].denom == *denom {
            let amt = rewards[i].amount;
            if acc > u128::MAX - amt {
                proof {
                    lemma_funds_sum_take_le(rewards@, denom@, i + 1);
                }
                return Err(ContractError::ArithmeticOverflow { denom: denom.clone() });
            }
            acc = acc + amt;
        }
    }
    proof {
        assert(rewards@.take(n as int) =~= rewards@);
    }
    Ok(acc)
}

/// Sums every claimable reward coin, whatever its denomination; rewards pay
/// out in the bonded denomination, which names any overflow.
pub fn query_staking_rewards(chain: &ChainInfo) -> (r: Result<u128, ContractError>)
    ensures
        match r {
            Ok(v) => v as int == coins_total(chain.rewards@),
            Err(e) => coins_total(chain.rewards@) > u128::MAX as int && (e matches
            ContractError::ArithmeticOverflow { denom: d } && d@ == chain.bonded_denom@),
        },
{
    let n = chain.rewards.len();
    let mut acc: u128 = 0;
    for i in 0..n
        invariant
            n == chain.rewards@.len(),
            acc as int == coins_total(chain.rewards@.take(i as int)),
    {
        proof {
            assert(chain.rewards@.take(i + 1).drop_last() =~= chain.rewards@.take(i as int));
        }
        let amt = chain.rewards[i].amount;
        if acc > u128::MAX - amt {
            proof {
                lemma_coins_total_take_le(chain.rewards@, i + 1);
            }
            return Err(ContractError::ArithmeticOverflow { denom: chain.bonded_denom.clone() });
        }
        acc = acc + amt;
    }
    proof {
        assert(chain.rewards@.take(n as int) =~= chain.rewards@);
    }
    Ok(acc)
}

/// Sums the stake delegated in one denomination; reports an overflow of the
/// transfer width.
pub fn query_staked_balance(dels: &Vec<Delegation>, denom: &String) -> (r: Result<
    u128,
    ContractError,
>)
    ensures
        match r {
            Ok(v) => v as int == delegations_sum(dels@, denom@),
            Err(e) => delegations_sum(dels@, denom@) > u128::MAX as int && (e matches
            ContractError::ArithmeticOverflow { denom: d } && d@ == denom@),
        },
{
    let n = dels.len();
    let mut acc: u128 = 0;
    for i in 0..n
        invariant
            n == dels@.len(),
            acc as int == delegations_sum(dels@.take(i as int), denom@),
    {
        proof {
            assert(dels@.take(i + 1).drop_last() =~= dels@.take(i as int));
        }
        if dels[i].amount.denom == *denom {
            let amt = dels[i].amount.amount;
            if acc > u128::MAX - amt {
                proof {
                    lemma_delegations_sum_take_le(dels@, denom@, i + 1);
                }
                return Err(ContractError::ArithmeticOverflow { denom: denom.clone() });
            }
            acc = acc + amt;
        }
    }
    proof {
        assert(dels@.take(n as int) =~= dels@);
    }
    Ok(acc)
}

/// Looks a balance up in the snapshot; absent denominations hold zero.
pub fn query_balance(chain: &ChainInfo, denom: &String) -> (r: u128)
    ensures
        r as int == balance_of(chain.balances@, denom@),
{
    let n = chain.balances.len();
    proof {
        assert(chain.balances@.skip(0) =~= chain.balances@);
    }
    for i in 0..n
        invariant
            n == chain.balances@.len(),
            balance_of(chain.balances@, denom@)
                == balance_of(chain.balances@.skip(i as int), denom@),
    {
        proof {
            assert(chain.balances@.skip(i as int).drop_first()
                =~= chain.balances@.skip(i + 1));
            assert(chain.balances@.skip(i as int).first() == chain.balances@[i as int]);
        }
        if chain.balances[i].denom == *denom {
            return chain.balances[i].amount;
        }
    }
    0
}

/// The caller must be the vault owner. Relied on by every owner-only
/// operation; returns the owner address on success.
pub fn require_owner(state: &VaultState, sender: &String) -> (r: Result<String, ContractError>)
    ensures
        r is Ok <==> sender@ == state.owner@,
        r matches Ok(o) ==> o == state.owner,
        r is Err ==> r->Err_0 is Unauthorized,
{
    if *sender == state.owner {
        Ok(state.owner.clone())
    } else {
        Err(ContractError::Unauthorized)
    }
}

/// Whether the sender is the owner or the bound lender.
pub open spec fn is_owner_or_lender(state: VaultState, sender: Seq<char>) -> bool {
    sender == state.owner@
        || (state.lender matches Some(l) && sender == l@)
}

/// The caller must be the vault owner or the bound lender; returns the
/// matched address on success.
pub fn require_owner_or_lender(state: &VaultState, sender: &String) -> (r: Result<
    String,
    ContractError,
>)
    ensures
        r is Ok <==> is_owner_or_lender(*state, sender@),
        r is Err ==> r->Err_0 is Unauthorized,
{
    if *sender == state.owner {
        return Ok(state.owner.clone());
    }
    match &state.lender {
        Some(lender) => {
            if *sender == *lender {
                return Ok(lender.clone());
            }
            Err(ContractError::Unauthorized)
        },
        None => Err(ContractError::Unauthorized),
    }
}

/// The coverage a bonded-denomination collateral can draw from staking:
/// claimable rewards plus currently staked balance.
pub open spec fn staking_coverage(chain: ChainInfo, denom: Seq<char>) -> int {
    coins_total(chain.rewards@) + delegations_sum(chain.delegations@, denom)
}

/// The minimum amount of collateral that must remain locked for `denom`:
/// nothing without matching active terms, the full collateral amount for a
/// non-stakeable denomination, and otherwise the shortfall the staking
/// coverage leaves open.
pub open spec fn spec_minimum_collateral_lock(
    chain: ChainInfo,
    denom: Seq<char>,
    open_interest: Option<OpenInterest>,
) -> int {
    match open_interest {
        Option::None => 0,
        Option::Some(interest) => {
            if interest.collateral.denom@ != denom {
                0
            } else if denom != chain.bonded_denom@ {
                interest.collateral.amount as int
            } else {
                let coverage = staking_coverage(chain, denom);
                if interest.collateral.amount as int <= coverage {
                    0
                } else {
                    interest.collateral.amount - coverage
                }
            }
        },
    }
}

/// Whether computing the staking coverage for this lock overflows the
/// transfer width.
pub open spec fn minimum_collateral_lock_overflows(
    chain: ChainInfo,
    denom: Seq<char>,
    open_interest: Option<OpenInterest>,
) -> bool {
    &&& open_interest matches Some(interest)
    &&& interest.collateral.denom@ == denom
    &&& denom == chain.bonded_denom@
    &&& staking_coverage(chain, denom) > u128::MAX as int
}

/// Returns the minimum amount of collateral that must remain locked for
/// `denom`.
pub fn minimum_collateral_lock_for_denom(
    chain: &ChainInfo,
    denom: &String,
    open_interest: Option<&OpenInterest>,
) -> (r: Result<u128, ContractError>)
    ensures
        match r {
            Ok(v) => !minimum_collateral_lock_overflows(
                *chain,
                denom@,
                match open_interest {
                    Some(oi) => Some(*oi),
                    None => None,
                },
            ) && v as int == spec_minimum_collateral_lock(
                *chain,
                denom@,
                match open_interest {
                    Some(oi) => Some(*oi),
                    None => None,
                },
            ),
            Err(e) => minimum_collateral_lock_overflows(
                *chain,
                denom@,
                match open_interest {
                    Some(oi) => Some(*oi),
                    None => None,
                },
            ) && e is ArithmeticOverflow,
        },
{
    let interest = match open_interest {
        Some(interest) => interest,
        None => {
            return Ok(0);
        },
    };
    if interest.collateral.denom != *denom {
        return Ok(0);
    }
    if *denom != chain.bonded_denom {
        return Ok(interest.collateral.amount);
    }
    let rewards = match query_staking_rewards(chain) {
        Ok(v) => v,
        Err(e) => {
            proof {
                lemma_delegations_sum_nonneg(chain.delegations@, denom@);
            }
            return Err(e);
        },
    };
    let staked = match query_staked_balance(&chain.delegations, denom) {
        Ok(v) => v,
        Err(e) => {
            proof {
                lemma_coins_total_nonneg(chain.rewards@);
            }
            return Err(e);
        },
    };
    if rewards > u128::MAX - staked {
        return Err(ContractError::ArithmeticOverflow { denom: denom.clone() });
    }
    let coverage = rewards + staked;
    if interest.collateral.amount <= coverage {
        Ok(0)
    } else {
        Ok(interest.collateral.amount - coverage)
    }
}

/// Whether the chain snapshot knows a validator of this address.
pub open spec fn has_validator(vals: Seq<String>, v: Seq<char>) -> bool {
    exists|i: int| 0 <= i < vals.len() && vals[i]@ == v
}

/// Looks a validator up in the snapshot.
pub fn validator_exists(vals: &Vec<String>, v: &String) -> (r: bool)
    ensures
        r == has_validator(vals@, v@),
{
    let n = vals.len();
    for i in 0..n
        invariant
            n == vals@.len(),
            forall|j: int| 0 <= j < i ==> vals@[j]@ != v@,
    {
        if vals[i] == *v {
            return true;
        }
    }
    false
}

/// Whether the vault holds a delegation with this validator.
pub open spec fn has_delegation(dels: Seq<Delegation>, v: Seq<char>) -> bool {
    exists|i: int| 0 <= i < dels.len() && dels[i].validator@ == v
}

/// The index of the delegation held with this validator.
pub open spec fn delegation_index(dels: Seq<Delegation>, v: Seq<char>) -> int {
    choose|i: int| 0 <= i < dels.len() && dels[i].validator@ == v
}

/// Finds the delegation held with one validator, if any.
pub fn find_delegation(dels: &Vec<Delegation>, v: &String) -> (r: Option<usize>)
    ensures
        match r {
            Some(i) => i < dels@.len() && dels@[i as int].validator@ == v@,
            None => !has_delegation(dels@, v@),
        },
{
    let n = dels.len();
    for i in 0..n
        invariant
            n == dels@.len(),
            forall|j: int| 0 <= j < i ==> dels@[j].validator@ != v@,
    {
        if dels[i].validator == *v {
            return Some(i);
        }
    }
    None
}

} // verus!
