//! The laws the lifecycle obeys, stated over the same spec predicates the
//! operations' contracts use. Together with the invariant `VaultState::wf`,
//! which every operation requires and re-establishes, they pin the escrow
//! bookkeeping, the bounded book, the eviction policy, the exclusivity of
//! acceptance, the idempotent clearing of the lifecycle fields, and the
//! propose/cancel round trip.

use vstd::prelude::*;
use crate::counter_offer::{
    cancel_applied, propose_accepted, propose_applied, accept_applied, winner_index,
};
use crate::liquidation::{liq_settled, liquidate_applied};
use crate::open_interest::book_refunded;
use crate::state::{
    MAX_COUNTER_OFFERS, VaultState, book_has_proposer, book_sum, first_min_index,
    lemma_book_sum_push, lemma_first_min_index_properties,
};
use crate::types::{
    ChainInfo, ChainMsg, Coin, CounterOffer, Env, MessageInfo, OpenInterest, Response,
};

verus! {

/// Escrow invariant: while no lender is bound, the outstanding debt is
/// absent exactly when the book is empty, and otherwise equals the sum of
/// every escrowed liquidity amount. Every operation requires and
/// re-establishes `wf`, so this holds after any sequence of calls.
pub proof fn law_escrow_invariant(s: VaultState)
    requires
        s.wf(),
        s.lender is None,
    ensures
        (s.outstanding_debt is None) <==> (s.counter_offers@.len() == 0),
        s.outstanding_debt matches Some(d) ==> d.amount == book_sum(s.counter_offers@),
{
}

/// Capacity invariant: the book never exceeds the configured maximum.
pub proof fn law_capacity_invariant(s: VaultState)
    requires
        s.wf(),
    ensures
        s.counter_offers@.len() <= MAX_COUNTER_OFFERS as int,
{
}

/// Eviction correctness, rejecting half: at capacity, an offer whose amount
/// does not strictly beat the current minimum is never accepted, so the
/// call fails and (by the propose contract) leaves the state untouched.
pub proof fn law_eviction_rejects_uncompetitive(
    pre: VaultState,
    info: MessageInfo,
    offer: OpenInterest,
)
    requires
        pre.wf(),
        pre.counter_offers@.len() >= MAX_COUNTER_OFFERS as int,
        offer.liquidity_coin.amount <= pre.counter_offers@[first_min_index(
            pre.counter_offers@,
        )].open_interest.liquidity_coin.amount,
    ensures
        !propose_accepted(pre, info, offer),
{
}

/// Eviction correctness, evicting half: at capacity, a successful propose
/// removes exactly one entry — one holding the minimal amount — refunds its
/// whole escrow in one transfer, and the book ends at capacity again.
pub proof fn law_eviction_evicts_minimum(
    pre: VaultState,
    post: VaultState,
    resp: Response,
    info: MessageInfo,
    offer: OpenInterest,
)
    requires
        pre.wf(),
        pre.counter_offers@.len() >= MAX_COUNTER_OFFERS as int,
        propose_applied(pre, post, resp, info, offer),
    ensures
        post.counter_offers@.len() == pre.counter_offers@.len(),
        forall|j: int|
            0 <= j < pre.counter_offers@.len()
                ==> pre.counter_offers@[first_min_index(
                    pre.counter_offers@,
                )].open_interest.liquidity_coin.amount
                    <= #[trigger] pre.counter_offers@[j].open_interest.liquidity_coin.amount,
        resp.messages@.len() == 1,
        (resp.messages@[0] matches ChainMsg::Send { to_address, amount }
            && to_address == pre.counter_offers@[first_min_index(pre.counter_offers@)].proposer
            && amount@ == seq![
                pre.counter_offers@[first_min_index(
                    pre.counter_offers@,
                )].open_interest.liquidity_coin,
            ]),
{
    lemma_first_min_index_properties(pre.counter_offers@);
}

/// Acceptance exclusivity: after a successful accept the book is empty,
/// every prior proposer but the winner receives exactly one refund equal to
/// its escrowed amount, and the winner receives none.
pub proof fn law_acceptance_exclusivity(
    pre: VaultState,
    post: VaultState,
    resp: Response,
    env: Env,
    proposer: String,
)
    requires
        pre.wf(),
        book_has_proposer(pre.counter_offers@, proposer@),
        accept_applied(pre, post, resp, env, proposer),
    ensures
        post.counter_offers@.len() == 0,
        resp.messages@.len() == pre.counter_offers@.len() - 1,
        forall|k: int|
            0 <= k < resp.messages@.len() ==> (#[trigger] resp.messages@[k] matches
            ChainMsg::Send { to_address, amount }
                && to_address@ != proposer@
                && amount@ == seq![
                    pre.counter_offers@.remove(winner_index(pre, proposer@))[k]
                        .open_interest.liquidity_coin,
                ]),
{
    let i = winner_index(pre, proposer@);
    assert(0 <= i < pre.counter_offers@.len() && pre.counter_offers@[i].proposer@ == proposer@);
    let rivals = pre.counter_offers@.remove(i);
    pre.counter_offers@.remove_ensures(i);
    assert forall|k: int| 0 <= k < rivals.len() implies rivals[k].proposer@ != proposer@ by {
        if k < i {
            assert(rivals[k] == pre.counter_offers@[k]);
        } else {
            assert(rivals[k] == pre.counter_offers@[k + 1]);
        }
    }
}

/// Idempotent clearing, closing half: a successful close leaves terms,
/// lender, expiry and outstanding debt all unset.
pub proof fn law_close_clears(pre: VaultState, post: VaultState, msgs: Seq<ChainMsg>)
    requires
        pre.wf(),
        pre.lender is None,
        book_refunded(VaultState { open_interest: None, ..pre }, post, msgs),
    ensures
        post.open_interest is None,
        post.lender is None,
        post.open_interest_expiry is None,
        post.outstanding_debt is None,
{
}

/// Idempotent clearing, liquidation half: a liquidation that settles the
/// whole debt leaves terms, lender, expiry and outstanding debt all unset.
pub proof fn law_full_liquidation_clears(
    pre: VaultState,
    post: VaultState,
    resp: Response,
    info: MessageInfo,
    chain: ChainInfo,
)
    requires
        pre.wf(),
        liquidate_applied(pre, post, resp, info, chain),
        liq_settled(pre, chain) == 0,
    ensures
        post.open_interest is None,
        post.lender is None,
        post.open_interest_expiry is None,
        post.outstanding_debt is None,
{
}

/// Round trip: a propose below capacity followed by a cancel from the same
/// proposer restores the book and the outstanding debt exactly, and the
/// cancel refunds exactly the escrowed coin.
pub proof fn law_propose_cancel_round_trip(
    s0: VaultState,
    s1: VaultState,
    s2: VaultState,
    resp1: Response,
    resp2: Response,
    info: MessageInfo,
    offer: OpenInterest,
)
    requires
        s0.wf(),
        s1.wf(),
        s0.counter_offers@.len() < MAX_COUNTER_OFFERS as int,
        propose_accepted(s0, info, offer),
        propose_applied(s0, s1, resp1, info, offer),
        cancel_applied(s1, s2, resp2, info.sender),
    ensures
        s2.counter_offers@ == s0.counter_offers@,
        s2.outstanding_debt == s0.outstanding_debt,
        (resp2.messages@[0] matches ChainMsg::Send { to_address, amount }
            && to_address@ == info.sender@ && amount@ == seq![offer.liquidity_coin]),
{
    let entry = CounterOffer { proposer: info.sender, open_interest: offer };
    let n = s0.counter_offers@.len() as int;
    assert(s1.counter_offers@ == s0.counter_offers@.push(entry));
    let i = choose|i: int|
        0 <= i < s1.counter_offers@.len() && s1.counter_offers@[i].proposer@ == info.sender@;
    assert(s1.counter_offers@[n].proposer@ == info.sender@);
    assert(i == n);
    assert(s2.counter_offers@ =~= s0.counter_offers@);
    lemma_book_sum_push(s0.counter_offers@, entry);
    if s0.counter_offers@.len() == 0 {
        assert(s0.outstanding_debt is None);
    } else {
        let d0 = s0.outstanding_debt->Some_0;
        assert(s2.outstanding_debt == Some(Coin { denom: d0.denom, amount: d0.amount }));
        assert(Coin { denom: d0.denom, amount: d0.amount } == d0);
    }
}

} // verus!
