//! The counter-offer book: proposing with bounded capacity and eviction,
//! cancelling with a full refund, and accepting one offer while refunding
//! every rival.

use vstd::prelude::*;
use crate::decimal::{dec_str, decimal_string};
use crate::error::ContractError;
use crate::helpers::{cap_u128, funds_sum, sum_funds_capped};
use crate::state::{
    MAX_COUNTER_OFFERS, VaultState, book_has_proposer, book_sum, co_terms_match,
    distinct_proposers, first_min_index, lemma_book_sum_ge_len, lemma_book_sum_nonneg,
    lemma_book_sum_push, lemma_book_sum_remove, lemma_first_min_index_properties,
    offer_matches_active,
};
use crate::types::{
    Attribute, ChainMsg, Coin, CounterOffer, Env, MessageInfo, OpenInterest, Response, attr,
    interest_matches,
};

verus! {

/// Checks a proposed counter offer against the active terms: every field but
/// the liquidity amount must match, and the amount must be positive and
/// strictly smaller.
pub fn validate_counter_offer(active: &OpenInterest, proposed: &OpenInterest) -> (r: Result<
    (),
    ContractError,
>)
    ensures
        r is Ok <==> offer_matches_active(*active, *proposed),
        r is Err ==> if !co_terms_match(*active, *proposed) {
            r->Err_0 is CounterOfferTermsMismatch
        } else if proposed.liquidity_coin.amount == 0 {
            r->Err_0 matches ContractError::InvalidCoinAmount { field }
                && field@ == "liquidity_coin"@
        } else {
            proposed.liquidity_coin.amount >= active.liquidity_coin.amount
                && r->Err_0 is CounterOfferNotSmaller
        },
{
    if !(proposed.liquidity_coin.denom == active.liquidity_coin.denom)
        || !proposed.interest_coin.same_as(&active.interest_coin)
        || !proposed.collateral.same_as(&active.collateral)
        || proposed.expiry_duration != active.expiry_duration {
        return Err(ContractError::CounterOfferTermsMismatch);
    }
    if proposed.liquidity_coin.amount == 0 {
        return Err(ContractError::InvalidCoinAmount { field: "liquidity_coin".to_owned() });
    }
    if proposed.liquidity_coin.amount >= active.liquidity_coin.amount {
        return Err(ContractError::CounterOfferNotSmaller);
    }
    Ok(())
}

/// Checks that the attached funds in the liquidity denomination sum to the
/// escrowed amount exactly; underpay and overpay both fail.
pub fn validate_counter_offer_escrow(info: &MessageInfo, proposed: &OpenInterest) -> (r: Result<
    (),
    ContractError,
>)
    ensures
        r is Ok <==> funds_sum(info.funds@, proposed.liquidity_coin.denom@)
            == proposed.liquidity_coin.amount as int,
        r is Err ==> (r->Err_0 matches ContractError::CounterOfferEscrowMismatch {
            denom,
            expected,
            received,
        } && denom@ == proposed.liquidity_coin.denom@
            && expected == proposed.liquidity_coin.amount
            && received as int == cap_u128(
                funds_sum(info.funds@, proposed.liquidity_coin.denom@),
            )),
{
    let expected = proposed.liquidity_coin.amount;
    let (received, clipped) = sum_funds_capped(&info.funds, &proposed.liquidity_coin.denom);
    if clipped || received != expected {
        return Err(ContractError::CounterOfferEscrowMismatch {
            denom: proposed.liquidity_coin.denom.clone(),
            expected,
            received,
        });
    }
    Ok(())
}

/// Adds a fresh escrow to the outstanding debt. Callers have already ruled
/// out a denomination mismatch and an overflow, so the update is infallible.
fn add_outstanding_debt(debt: &mut Option<Coin>, coin: &Coin)
    requires
        match *old(debt) {
            Some(c) => c.denom@ == coin.denom@ && c.amount + coin.amount <= u128::MAX,
            None => true,
        },
    ensures
        *final(debt) == match *old(debt) {
            Some(c) => Some(Coin { denom: c.denom, amount: (c.amount + coin.amount) as u128 }),
            None => Some(*coin),
        },
{
    match debt {
        Some(existing) => {
            existing.amount = existing.amount + coin.amount;
        },
        None => {
            *debt = Some(coin.clone());
        },
    }
}

/// Releases a leaving escrow from the outstanding debt; the debt dissolves
/// when the last escrow leaves. Callers have already established that the
/// debt covers the amount, so the update is infallible.
fn release_outstanding_debt(debt: &mut Option<Coin>, coin: &Coin)
    requires
        match *old(debt) {
            Some(c) => c.denom@ == coin.denom@ && coin.amount <= c.amount,
            None => false,
        },
    ensures
        *final(debt) == if old(debt)->Some_0.amount == coin.amount {
            None::<Coin>
        } else {
            Some(Coin {
                denom: old(debt)->Some_0.denom,
                amount: (old(debt)->Some_0.amount - coin.amount) as u128,
            })
        },
{
    let clear = match debt {
        Some(existing) => {
            if existing.amount == coin.amount {
                true
            } else {
                existing.amount = existing.amount - coin.amount;
                false
            }
        },
        None => false,
    };
    if clear {
        *debt = None;
    }
}

/// The index the eviction scan settles on: the earliest entry with the
/// minimal escrowed amount.
fn worst_offer_index(book: &Vec<CounterOffer>) -> (w: usize)
    requires
        book@.len() > 0,
    ensures
        w as int == first_min_index(book@),
        w < book@.len(),
{
    let n = book.len();
    let mut w: usize = 0;
    let mut i: usize = 1;
    while i < n
        invariant
            1 <= i <= n,
            n == book@.len(),
            w < i,
            w as int == first_min_index(book@.take(i as int)),
        decreases n - i,
    {
        proof {
            assert(book@.take(i + 1).drop_last() =~= book@.take(i as int));
            assert(book@.take(i + 1).last() == book@[i as int]);
        }
        if book[i].open_interest.liquidity_coin.amount
            < book[w].open_interest.liquidity_coin.amount {
            w = i;
        }
        i = i + 1;
    }
    proof {
        assert(book@.take(n as int) =~= book@);
    }
    w
}

/// Whether a propose call must evict: the book already sits at capacity.
pub open spec fn propose_evicts(pre: VaultState) -> bool {
    pre.counter_offers@.len() >= MAX_COUNTER_OFFERS as int
}

/// The outstanding debt a successful propose leaves behind: the old book sum
/// less any evicted escrow plus the incoming one.
pub open spec fn propose_new_total(pre: VaultState, proposed: OpenInterest) -> int {
    book_sum(pre.counter_offers@) - (if propose_evicts(pre) {
        pre.counter_offers@[first_min_index(
            pre.counter_offers@,
        )].open_interest.liquidity_coin.amount as int
    } else {
        0
    }) + proposed.liquidity_coin.amount
}

/// Every condition a propose call checks, in force exactly when the call
/// succeeds: active terms without a bound lender, a matching strictly
/// smaller offer, exact escrow, a fresh proposer, a competitive amount when
/// the book is full, and a new debt total that fits the transfer width.
pub open spec fn propose_accepted(
    pre: VaultState,
    info: MessageInfo,
    proposed: OpenInterest,
) -> bool {
    &&& pre.open_interest is Some
    &&& pre.lender is None
    &&& offer_matches_active(pre.open_interest->Some_0, proposed)
    &&& funds_sum(info.funds@, proposed.liquidity_coin.denom@)
        == proposed.liquidity_coin.amount as int
    &&& !book_has_proposer(pre.counter_offers@, info.sender@)
    &&& (propose_evicts(pre) ==> proposed.liquidity_coin.amount
        > pre.counter_offers@[first_min_index(
            pre.counter_offers@,
        )].open_interest.liquidity_coin.amount)
    &&& propose_new_total(pre, proposed) <= u128::MAX as int
}

/// Which error a failing propose call returns, following the order in which
/// the conditions are checked.
pub open spec fn propose_error(
    pre: VaultState,
    info: MessageInfo,
    proposed: OpenInterest,
    e: ContractError,
) -> bool {
    if pre.open_interest is None {
        e is NoOpenInterest
    } else if pre.lender is Some {
        e is LenderAlreadySet
    } else if !co_terms_match(pre.open_interest->Some_0, proposed) {
        e is CounterOfferTermsMismatch
    } else if proposed.liquidity_coin.amount == 0 {
        (e matches ContractError::InvalidCoinAmount { field } && field@ == "liquidity_coin"@)
    } else if proposed.liquidity_coin.amount
        >= pre.open_interest->Some_0.liquidity_coin.amount {
        e is CounterOfferNotSmaller
    } else if funds_sum(info.funds@, proposed.liquidity_coin.denom@)
        != proposed.liquidity_coin.amount as int {
        (e matches ContractError::CounterOfferEscrowMismatch { denom, expected, received }
            && denom@ == proposed.liquidity_coin.denom@
            && expected == proposed.liquidity_coin.amount
            && received as int == cap_u128(
                funds_sum(info.funds@, proposed.liquidity_coin.denom@),
            ))
    } else if book_has_proposer(pre.counter_offers@, info.sender@) {
        e is CounterOfferAlreadyExists
    } else if propose_evicts(pre) && proposed.liquidity_coin.amount
        <= pre.counter_offers@[first_min_index(
            pre.counter_offers@,
        )].open_interest.liquidity_coin.amount {
        (e matches ContractError::CounterOfferNotCompetitive { minimum, denom }
            && minimum == pre.counter_offers@[first_min_index(
                pre.counter_offers@,
            )].open_interest.liquidity_coin.amount
            && denom@ == proposed.liquidity_coin.denom@)
    } else {
        propose_new_total(pre, proposed) > u128::MAX as int && (e matches
        ContractError::OutstandingDebtOverflow { denom, current, additional }
            && denom@ == proposed.liquidity_coin.denom@
            && current as int == book_sum(pre.counter_offers@) - (if propose_evicts(pre) {
                pre.counter_offers@[first_min_index(
                    pre.counter_offers@,
                )].open_interest.liquidity_coin.amount as int
            } else {
                0
            })
            && additional == proposed.liquidity_coin.amount)
    }
}

/// How a successful propose transforms the state and what it answers: the
/// new entry joins the book, the outstanding debt grows to the new total,
/// and — when the book was full — the earliest minimal entry leaves and its
/// escrow travels back to its proposer in one transfer.
pub open spec fn propose_applied(
    pre: VaultState,
    post: VaultState,
    resp: Response,
    info: MessageInfo,
    proposed: OpenInterest,
) -> bool {
    let entry = CounterOffer { proposer: info.sender, open_interest: proposed };
    let w = first_min_index(pre.counter_offers@);
    let evicted = pre.counter_offers@[w];
    &&& post.owner == pre.owner
    &&& post.lender == pre.lender
    &&& post.open_interest == pre.open_interest
    &&& post.open_interest_expiry == pre.open_interest_expiry
    &&& post.liquidation_unbonding_duration == pre.liquidation_unbonding_duration
    &&& post.last_liquidation_unbonding == pre.last_liquidation_unbonding
    &&& (post.outstanding_debt matches Some(d)
        && d.amount as int == propose_new_total(pre, proposed)
        && d.denom == (match pre.outstanding_debt {
            Some(c) => c.denom,
            None => proposed.liquidity_coin.denom,
        }))
    &&& if propose_evicts(pre) {
        &&& post.counter_offers@ == pre.counter_offers@.remove(w).push(entry)
        &&& resp.messages@.len() == 1
        &&& (resp.messages@[0] matches ChainMsg::Send { to_address, amount }
            && to_address == evicted.proposer
            && amount@ == seq![evicted.open_interest.liquidity_coin])
        &&& resp.attributes@.len() == 4
        &&& resp.attributes@[3].key@ == "evicted_proposer"@
        &&& resp.attributes@[3].value@ == evicted.proposer@
    } else {
        &&& post.counter_offers@ == pre.counter_offers@.push(entry)
        &&& resp.messages@.len() == 0
        &&& resp.attributes@.len() == 3
    }
    &&& resp.attributes@[0].key@ == "action"@
    &&& resp.attributes@[0].value@ == "propose_counter_offer"@
    &&& resp.attributes@[1].key@ == "proposer"@
    &&& resp.attributes@[1].value@ == info.sender@
    &&& resp.attributes@[2].key@ == "liquidity_amount"@
    &&& resp.attributes@[2].value@ == dec_str(proposed.liquidity_coin.amount as nat)
}

/// Registers a competing counter offer, escrowing its liquidity amount.
///
/// While the book is below capacity the offer is simply inserted. At
/// capacity the offer must strictly beat the current minimum; the earliest
/// minimal entry is then evicted and refunded in full. Every validation
/// failure leaves the state untouched.
pub fn propose(state: &mut VaultState, info: &MessageInfo, proposed_interest: OpenInterest) -> (r:
    Result<Response, ContractError>)
    requires
        old(state).wf(),
    ensures
        final(state).wf(),
        r is Ok <==> propose_accepted(*old(state), *info, proposed_interest),
        r matches Ok(resp) ==> propose_applied(
            *old(state),
            *final(state),
            resp,
            *info,
            proposed_interest,
        ),
        r is Err ==> *final(state) == *old(state)
            && propose_error(*old(state), *info, proposed_interest, r->Err_0),
{
    match &state.open_interest {
        None => {
            return Err(ContractError::NoOpenInterest);
        },
        Some(active) => {
            if state.lender.is_some() {
                return Err(ContractError::LenderAlreadySet);
            }
            match validate_counter_offer(active, &proposed_interest) {
                Err(e) => {
                    return Err(e);
                },
                Ok(()) => {},
            }
        },
    }
    match validate_counter_offer_escrow(info, &proposed_interest) {
        Err(e) => {
            return Err(e);
        },
        Ok(()) => {},
    }
    let dup = state.find_offer_index(&info.sender);
    if dup.is_some() {
        proof {
            let i = dup->Some_0 as int;
            assert(state.counter_offers@[i].proposer@ == info.sender@);
        }
        return Err(ContractError::CounterOfferAlreadyExists);
    }

    let ghost pre = *state;
    let len = state.counter_offers.len();
    let mut evict_index: Option<usize> = None;
    if len >= MAX_COUNTER_OFFERS as usize {
        proof {
            lemma_first_min_index_properties(state.counter_offers@);
        }
        let w = worst_offer_index(&state.counter_offers);
        let worst_amount = state.counter_offers[w].open_interest.liquidity_coin.amount;
        if proposed_interest.liquidity_coin.amount <= worst_amount {
            return Err(ContractError::CounterOfferNotCompetitive {
                minimum: worst_amount,
                denom: proposed_interest.liquidity_coin.denom.clone(),
            });
        }
        evict_index = Some(w);
    }

    // The whole debt update is checked before any mutation: from here on the
    // insertion cannot fail.
    let current_debt: u128 = match &state.outstanding_debt {
        Some(c) => c.amount,
        None => 0,
    };
    proof {
        if pre.counter_offers@.len() == 0 {
            assert(book_sum(pre.counter_offers@) == 0);
        }
        if evict_index is Some {
            lemma_book_sum_remove(pre.counter_offers@, evict_index->Some_0 as int);
            lemma_book_sum_nonneg(pre.counter_offers@.remove(evict_index->Some_0 as int));
        }
        lemma_book_sum_nonneg(pre.counter_offers@);
    }
    let released: u128 = match evict_index {
        Some(w) => state.counter_offers[w].open_interest.liquidity_coin.amount,
        None => 0,
    };
    let base = current_debt - released;
    let added = proposed_interest.liquidity_coin.amount;
    if base > u128::MAX - added {
        return Err(ContractError::OutstandingDebtOverflow {
            denom: proposed_interest.liquidity_coin.denom.clone(),
            current: base,
            additional: added,
        });
    }

    let mut response = Response::new();
    response.attributes.push(attr("action", "propose_counter_offer"));
    response.attributes.push(Attribute { key: "proposer".to_owned(), value: info.sender.clone() });
    response.attributes.push(Attribute {
        key: "liquidity_amount".to_owned(),
        value: decimal_string(proposed_interest.liquidity_coin.amount),
    });

    if let Some(w) = evict_index {
        proof {
            pre.counter_offers@.remove_ensures(w as int);
            let shrunk = pre.counter_offers@.remove(w as int);
            assert forall|j: int| 0 <= j < shrunk.len() implies
                #[trigger] shrunk[j].open_interest.liquidity_coin.amount >= 1 by {
                if j < w {
                    assert(shrunk[j] == pre.counter_offers@[j]);
                } else {
                    assert(shrunk[j] == pre.counter_offers@[j + 1]);
                }
            }
            lemma_book_sum_ge_len(shrunk);
        }
        let evicted = state.counter_offers.remove(w);
        release_outstanding_debt(&mut state.outstanding_debt, &evicted.open_interest.liquidity_coin);
        response.attributes.push(Attribute {
            key: "evicted_proposer".to_owned(),
            value: evicted.proposer.clone(),
        });
        let mut refund_coins: Vec<Coin> = Vec::new();
        refund_coins.push(evicted.open_interest.liquidity_coin);
        response.messages.push(ChainMsg::Send {
            to_address: evicted.proposer,
            amount: refund_coins,
        });
    }
    add_outstanding_debt(&mut state.outstanding_debt, &proposed_interest.liquidity_coin);
    let entry = CounterOffer { proposer: info.sender.clone(), open_interest: proposed_interest };
    state.counter_offers.push(entry);

    proof {
        let postbook = state.counter_offers@;
        if pre.counter_offers@.len() >= MAX_COUNTER_OFFERS as int {
            let w = first_min_index(pre.counter_offers@);
            let shrunk = pre.counter_offers@.remove(w);
            lemma_book_sum_push(
                shrunk,
                CounterOffer { proposer: info.sender, open_interest: proposed_interest },
            );
            assert forall|i: int, j: int| 0 <= i < j < postbook.len() implies
                postbook[i].proposer@ != postbook[j].proposer@ by {
                if j < postbook.len() - 1 {
                    assert(postbook[i] == shrunk[i] && postbook[j] == shrunk[j]);
                } else if i < postbook.len() - 1 {
                    assert(postbook[i] == shrunk[i]);
                    assert(postbook[j].proposer@ == info.sender@);
                }
            }
        } else {
            lemma_book_sum_push(
                pre.counter_offers@,
                CounterOffer { proposer: info.sender, open_interest: proposed_interest },
            );
            assert forall|i: int, j: int| 0 <= i < j < postbook.len() implies
                postbook[i].proposer@ != postbook[j].proposer@ by {
                if j == postbook.len() - 1 {
                    assert(postbook[j].proposer@ == info.sender@);
                    assert(postbook[i] == pre.counter_offers@[i]);
                }
            }
        }
    }
    Ok(response)
}

/// The index of the book entry the named proposer holds.
pub open spec fn winner_index(pre: VaultState, proposer: Seq<char>) -> int {
    choose|i: int|
        0 <= i < pre.counter_offers@.len() && pre.counter_offers@[i].proposer@ == proposer
}

/// How a successful accept transforms the state and what it answers: the
/// winning offer becomes the binding terms, the proposer becomes the lender
/// with a fresh expiry, the escrow debt dissolves, and every rival entry is
/// refunded in full — one transfer each, in book order, none for the winner.
pub open spec fn accept_applied(
    pre: VaultState,
    post: VaultState,
    resp: Response,
    env: Env,
    proposer: String,
) -> bool {
    let i = winner_index(pre, proposer@);
    let winner = pre.counter_offers@[i];
    let rivals = pre.counter_offers@.remove(i);
    &&& post.owner == pre.owner
    &&& post.lender == Some(proposer)
    &&& post.open_interest == Some(winner.open_interest)
    &&& post.open_interest_expiry == Some(
        (env.block_time + winner.open_interest.expiry_duration) as u64,
    )
    &&& post.outstanding_debt is None
    &&& post.counter_offers@.len() == 0
    &&& post.liquidation_unbonding_duration == pre.liquidation_unbonding_duration
    &&& post.last_liquidation_unbonding == pre.last_liquidation_unbonding
    &&& resp.messages@.len() == rivals.len()
    &&& forall|k: int|
        0 <= k < rivals.len() ==> (#[trigger] resp.messages@[k] matches ChainMsg::Send {
            to_address,
            amount,
        } && to_address == rivals[k].proposer
            && amount@ == seq![rivals[k].open_interest.liquidity_coin])
    &&& resp.attributes@.len() == 4
    &&& resp.attributes@[0].key@ == "action"@
    &&& resp.attributes@[0].value@ == "accept_counter_offer"@
    &&& resp.attributes@[1].key@ == "lender"@
    &&& resp.attributes@[1].value@ == proposer@
    &&& resp.attributes@[2].key@ == "liquidity_amount"@
    &&& resp.attributes@[2].value@ == dec_str(winner.open_interest.liquidity_coin.amount as nat)
    &&& resp.attributes@[3].key@ == "refunded_offers"@
    &&& resp.attributes@[3].value@ == dec_str(rivals.len() as nat)
}

/// Every condition an accept call checks, in force exactly when the call
/// succeeds.
pub open spec fn accept_accepted(
    pre: VaultState,
    info: MessageInfo,
    proposer: Seq<char>,
    expected: OpenInterest,
) -> bool {
    &&& info.sender@ == pre.owner@
    &&& pre.open_interest is Some
    &&& pre.lender is None
    &&& book_has_proposer(pre.counter_offers@, proposer)
    &&& interest_matches(pre.counter_offers@[winner_index(pre, proposer)].open_interest, expected)
}

/// Which error a failing accept call returns, following the order in which
/// the conditions are checked.
pub open spec fn accept_error(
    pre: VaultState,
    info: MessageInfo,
    proposer: Seq<char>,
    expected: OpenInterest,
    e: ContractError,
) -> bool {
    if info.sender@ != pre.owner@ {
        e is Unauthorized
    } else if pre.open_interest is None {
        e is NoOpenInterest
    } else if pre.lender is Some {
        e is LenderAlreadySet
    } else if !book_has_proposer(pre.counter_offers@, proposer) {
        (e matches ContractError::CounterOfferNotFound { proposer: p } && p@ == proposer)
    } else {
        !interest_matches(pre.counter_offers@[winner_index(pre, proposer)].open_interest, expected)
            && (e matches ContractError::CounterOfferMismatch { proposer: p } && p@ == proposer)
    }
}

/// Lets the vault owner accept one counter offer, named by proposer and by
/// its exact stored terms (a stale payload is rejected). Every other
/// escrowed bidder is refunded, the winning offer becomes the binding open
/// interest, and the proposer becomes the lender until the fresh expiry.
pub fn accept(
    state: &mut VaultState,
    env: &Env,
    info: &MessageInfo,
    proposer: String,
    expected_interest: OpenInterest,
) -> (r: Result<Response, ContractError>)
    requires
        old(state).wf(),
        match old(state).open_interest {
            Some(oi) => env.block_time + oi.expiry_duration <= u64::MAX,
            None => true,
        },
    ensures
        final(state).wf(),
        r is Ok <==> accept_accepted(*old(state), *info, proposer@, expected_interest),
        r matches Ok(resp) ==> accept_applied(*old(state), *final(state), resp, *env, proposer),
        r is Err ==> *final(state) == *old(state)
            && accept_error(*old(state), *info, proposer@, expected_interest, r->Err_0),
{
    if !(info.sender == state.owner) {
        return Err(ContractError::Unauthorized);
    }
    if state.open_interest.is_none() {
        return Err(ContractError::NoOpenInterest);
    }
    if state.lender.is_some() {
        return Err(ContractError::LenderAlreadySet);
    }
    let idx = match state.find_offer_index(&proposer) {
        Some(i) => i,
        None => {
            return Err(ContractError::CounterOfferNotFound { proposer });
        },
    };
    let ghost pre = *state;
    proof {
        assert(pre.counter_offers@[idx as int].proposer@ == proposer@);
        let w = winner_index(pre, proposer@);
        assert(pre.counter_offers@[w].proposer@ == proposer@);
        assert(w == idx as int);
    }
    if !state.counter_offers[idx].open_interest.same_as(&expected_interest) {
        return Err(ContractError::CounterOfferMismatch { proposer });
    }

    let winner_offer = state.counter_offers[idx].open_interest.clone();
    let n = state.counter_offers.len();
    let ghost rivals = pre.counter_offers@.remove(idx as int);
    proof {
        pre.counter_offers@.remove_ensures(idx as int);
    }
    let mut messages: Vec<ChainMsg> = Vec::new();
    for k in 0..n
        invariant
            n == state.counter_offers@.len(),
            *state == pre,
            idx < n,
            rivals == pre.counter_offers@.remove(idx as int),
            messages@.len() == if k <= idx { k as int } else { k - 1 },
            forall|m: int|
                0 <= m < messages@.len() ==> (#[trigger] messages@[m] matches ChainMsg::Send {
                    to_address,
                    amount,
                } && to_address == rivals[m].proposer
                    && amount@ == seq![rivals[m].open_interest.liquidity_coin]),
    {
        proof {
            pre.counter_offers@.remove_ensures(idx as int);
        }
        if k != idx {
            let mut refund_coins: Vec<Coin> = Vec::new();
            refund_coins.push(state.counter_offers[k].open_interest.liquidity_coin.clone());
            messages.push(ChainMsg::Send {
                to_address: state.counter_offers[k].proposer.clone(),
                amount: refund_coins,
            });
        }
    }

    let refunded = messages.len();
    state.counter_offers = Vec::new();
    state.outstanding_debt = None;
    state.open_interest = Some(winner_offer);
    let expiry = env.block_time + state.open_interest.as_ref().unwrap().expiry_duration;
    state.set_active_lender(proposer.clone(), expiry);

    let mut response = Response::new();
    response.messages = messages;
    response.attributes.push(attr("action", "accept_counter_offer"));
    response.attributes.push(Attribute { key: "lender".to_owned(), value: proposer });
    response.attributes.push(Attribute {
        key: "liquidity_amount".to_owned(),
        value: decimal_string(state.open_interest.as_ref().unwrap().liquidity_coin.amount),
    });
    response.attributes.push(Attribute {
        key: "refunded_offers".to_owned(),
        value: decimal_string(refunded as u128),
    });
    Ok(response)
}

/// How `cancel` transforms the state and what it refunds: the caller's entry
/// leaves the book, its escrow leaves the outstanding debt (which dissolves
/// with the last entry), and one transfer returns the escrow in full.
pub open spec fn cancel_applied(
    pre: VaultState,
    post: VaultState,
    resp: Response,
    sender: String,
) -> bool {
    let i = choose|i: int|
        0 <= i < pre.counter_offers@.len() && pre.counter_offers@[i].proposer@ == sender@;
    let entry = pre.counter_offers@[i];
    &&& post.owner == pre.owner
    &&& post.lender == pre.lender
    &&& post.open_interest == pre.open_interest
    &&& post.open_interest_expiry == pre.open_interest_expiry
    &&& post.liquidation_unbonding_duration == pre.liquidation_unbonding_duration
    &&& post.last_liquidation_unbonding == pre.last_liquidation_unbonding
    &&& post.counter_offers@ == pre.counter_offers@.remove(i)
    &&& post.outstanding_debt == if pre.counter_offers@.len() == 1 {
        None::<Coin>
    } else {
        Some(Coin {
            denom: pre.outstanding_debt->Some_0.denom,
            amount: (pre.outstanding_debt->Some_0.amount
                - entry.open_interest.liquidity_coin.amount) as u128,
        })
    }
    &&& resp.messages@.len() == 1
    &&& resp.messages@[0] matches ChainMsg::Send { to_address, amount }
        && to_address == entry.proposer && amount@ == seq![entry.open_interest.liquidity_coin]
    &&& resp.attributes@.len() == 3
    &&& resp.attributes@[0].key@ == "action"@
    &&& resp.attributes@[0].value@ == "cancel_counter_offer"@
    &&& resp.attributes@[1].key@ == "proposer"@
    &&& resp.attributes@[1].value@ == sender@
    &&& resp.attributes@[2].key@ == "liquidity_amount"@
    &&& resp.attributes@[2].value@ == dec_str(entry.open_interest.liquidity_coin.amount as nat)
}

/// Removes the caller's own counter offer and refunds its escrow in full.
///
/// Fails when no open interest is active or when the caller has no entry;
/// on failure the state is untouched.
pub fn cancel(state: &mut VaultState, info: &MessageInfo) -> (r: Result<Response, ContractError>)
    requires
        old(state).wf(),
    ensures
        final(state).wf(),
        r is Ok <==> old(state).open_interest is Some
            && book_has_proposer(old(state).counter_offers@, info.sender@),
        r matches Ok(resp) ==> cancel_applied(*old(state), *final(state), resp, info.sender),
        r is Err ==> *final(state) == *old(state) && if old(state).open_interest is None {
            r->Err_0 is NoOpenInterest
        } else {
            (r->Err_0 matches ContractError::CounterOfferNotFound { proposer }
                && proposer@ == info.sender@)
        },
{
    if state.open_interest.is_none() {
        return Err(ContractError::NoOpenInterest);
    }
    let idx = match state.find_offer_index(&info.sender) {
        Some(i) => i,
        None => {
            return Err(ContractError::CounterOfferNotFound { proposer: info.sender.clone() });
        },
    };
    let ghost pre = *state;
    let ghost witness: int = idx as int;

    proof {
        lemma_book_sum_remove(pre.counter_offers@, idx as int);
        lemma_book_sum_nonneg(pre.counter_offers@.remove(idx as int));
        lemma_book_sum_ge_len(pre.counter_offers@.remove(idx as int));
        pre.counter_offers@.remove_ensures(idx as int);
    }
    let entry = state.counter_offers.remove(idx);
    release_outstanding_debt(&mut state.outstanding_debt, &entry.open_interest.liquidity_coin);

    let mut response = Response::new();
    response.attributes.push(attr("action", "cancel_counter_offer"));
    response.attributes.push(Attribute { key: "proposer".to_owned(), value: info.sender.clone() });
    response.attributes.push(Attribute {
        key: "liquidity_amount".to_owned(),
        value: decimal_string(entry.open_interest.liquidity_coin.amount),
    });
    let mut refund_coins: Vec<Coin> = Vec::new();
    refund_coins.push(entry.open_interest.liquidity_coin);
    response.messages.push(ChainMsg::Send {
        to_address: entry.proposer,
        amount: refund_coins,
    });

    proof {
        let i = choose|i: int|
            0 <= i < pre.counter_offers@.len() && pre.counter_offers@[i].proposer@ == info.sender@;
        assert(i == witness);
        if pre.counter_offers@.len() == 1 {
            assert(book_sum(pre.counter_offers@)
                == pre.counter_offers@[0].open_interest.liquidity_coin.amount);
        }
    }
    Ok(response)
}

} // verus!
