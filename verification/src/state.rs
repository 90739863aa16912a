//! The vault's persistent state and its well-formedness invariant.

use vstd::prelude::*;
use crate::types::{Coin, CounterOffer, OpenInterest, coin_matches, interest_matches};

verus! {

/// Maximum number of counter offers a vault will record simultaneously.
pub const MAX_COUNTER_OFFERS: u8 = 255;

/// Safe default for the unstaking delay used in liquidation logic
/// (21 days in seconds).
pub const DEFAULT_LIQUIDATION_UNBONDING_SECONDS: u64 = 21 * 24 * 60 * 60;

/// Hard cap on custom liquidation intervals (30 days in seconds).
pub const MAX_LIQUIDATION_UNBONDING_SECONDS: u64 = 30 * 24 * 60 * 60;

/// The whole persistent state of one vault.
///
/// The counter-offer book keeps its entries in insertion order; the eviction
/// scan breaks ties between equally small offers in favour of the
/// earliest-inserted entry.
#[derive(Debug)]
pub struct VaultState {
    /// Single authority for opening, closing, accepting and repaying.
    pub owner: String,
    /// The bound lender, set by acceptance or direct funding.
    pub lender: Option<String>,
    /// While no lender is bound: the sum of all escrowed counter offers.
    /// After a partial liquidation: the unpaid collateral-denom remainder.
    pub outstanding_debt: Option<Coin>,
    /// The active loan terms, if any.
    pub open_interest: Option<OpenInterest>,
    /// When the funded position expires, in seconds; set with the lender.
    pub open_interest_expiry: Option<u64>,
    /// The bounded competitive-offer registry, in insertion order.
    pub counter_offers: Vec<CounterOffer>,
    /// The configured unstaking delay, in seconds.
    pub liquidation_unbonding_duration: u64,
    /// When the last liquidation scheduled an undelegation, in seconds.
    pub last_liquidation_unbonding: Option<u64>,
}

/// The sum of the escrowed liquidity amounts of a book.
pub open spec fn book_sum(book: Seq<CounterOffer>) -> int
    decreases book.len(),
{
    if book.len() == 0 {
        0
    } else {
        book_sum(book.drop_last()) + book.last().open_interest.liquidity_coin.amount
    }
}

/// Every proposer appears at most once in the book.
pub open spec fn distinct_proposers(book: Seq<CounterOffer>) -> bool {
    forall|i: int, j: int|
        0 <= i < j < book.len() ==> book[i].proposer@ != book[j].proposer@
}

/// Whether some entry of the book belongs to this proposer.
pub open spec fn book_has_proposer(book: Seq<CounterOffer>, proposer: Seq<char>) -> bool {
    exists|i: int| 0 <= i < book.len() && book[i].proposer@ == proposer
}

/// A counter offer names the same denominations, interest, collateral and
/// duration as the active terms; only the liquidity amount may deviate.
pub open spec fn co_terms_match(active: OpenInterest, offer: OpenInterest) -> bool {
    &&& offer.liquidity_coin.denom@ == active.liquidity_coin.denom@
    &&& coin_matches(offer.interest_coin, active.interest_coin)
    &&& coin_matches(offer.collateral, active.collateral)
    &&& offer.expiry_duration == active.expiry_duration
}

/// A stored counter offer agrees with the active terms in every field except
/// the liquidity amount, which is positive and strictly smaller.
pub open spec fn offer_matches_active(active: OpenInterest, offer: OpenInterest) -> bool {
    &&& co_terms_match(active, offer)
    &&& 0 < offer.liquidity_coin.amount < active.liquidity_coin.amount
}

/// The index the eviction scan settles on: the earliest entry holding the
/// minimal liquidity amount.
pub open spec fn first_min_index(book: Seq<CounterOffer>) -> int
    decreases book.len(),
{
    if book.len() <= 1 {
        0
    } else {
        let rest = first_min_index(book.drop_last());
        if book.last().open_interest.liquidity_coin.amount
            < book[rest].open_interest.liquidity_coin.amount {
            book.len() - 1
        } else {
            rest
        }
    }
}

impl VaultState {
    /// The well-formedness invariant. Every operation preserves it:
    ///
    /// * the book never exceeds its fixed capacity;
    /// * a proposer appears at most once;
    /// * counter offers exist only while terms are posted and no lender is
    ///   bound;
    /// * the expiry timestamp is stored exactly while a lender is bound;
    /// * while no lender is bound, the outstanding debt is absent exactly
    ///   when the book is empty, and otherwise equals the sum of all
    ///   escrowed liquidity amounts, in the liquidity denomination;
    /// * every stored offer repeats the active terms at a smaller liquidity
    ///   amount.
    pub open spec fn wf(self) -> bool {
        &&& self.counter_offers@.len() <= MAX_COUNTER_OFFERS as int
        &&& distinct_proposers(self.counter_offers@)
        &&& (self.lender is Some ==> self.counter_offers@.len() == 0)
        &&& (self.open_interest is None ==> self.counter_offers@.len() == 0)
        &&& (self.lender is Some <==> self.open_interest_expiry is Some)
        &&& (self.lender is None ==> match self.outstanding_debt {
            Option::None => self.counter_offers@.len() == 0,
            Option::Some(debt) => {
                &&& self.counter_offers@.len() > 0
                &&& debt.amount == book_sum(self.counter_offers@)
                &&& debt.denom@ == self.open_interest->Some_0.liquidity_coin.denom@
            },
        })
        &&& (forall|i: int|
            0 <= i < self.counter_offers@.len()
                ==> offer_matches_active(
                    self.open_interest->Some_0,
                    #[trigger] self.counter_offers@[i].open_interest,
                ))
    }

    /// Binds a lender and stamps the expiry of the funded position.
    pub fn set_active_lender(&mut self, lender: String, expiry: u64)
        ensures
            *final(self) == (VaultState {
                lender: Some(lender),
                open_interest_expiry: Some(expiry),
                ..*old(self)
            }),
    {
        self.lender = Some(lender);
        self.open_interest_expiry = Some(expiry);
    }

    /// Unbinds the lender and clears the expiry with it.
    pub fn clear_active_lender(&mut self)
        ensures
            *final(self) == (VaultState {
                lender: None,
                open_interest_expiry: None,
                ..*old(self)
            }),
    {
        self.lender = None;
        self.open_interest_expiry = None;
    }

    /// Finds the book entry of a proposer, if one exists.
    pub fn find_offer_index(&self, proposer: &String) -> (r: Option<usize>)
        ensures
            match r {
                Some(i) => i < self.counter_offers@.len()
                    && self.counter_offers@[i as int].proposer@ == proposer@,
                None => !book_has_proposer(self.counter_offers@, proposer@),
            },
    {
        let n = self.counter_offers.len();
        for i in 0..n
            invariant
                n == self.counter_offers@.len(),
                forall|j: int| 0 <= j < i ==> self.counter_offers@[j].proposer@ != proposer@,
        {
            if self.counter_offers[i].proposer == *proposer {
                return Some(i);
            }
        }
        None
    }
}

/// The book sum is never negative.
pub proof fn lemma_book_sum_nonneg(book: Seq<CounterOffer>)
    ensures
        book_sum(book) >= 0,
    decreases book.len(),
{
    if book.len() > 0 {
        lemma_book_sum_nonneg(book.drop_last());
    }
}

/// Appending an entry raises the book sum by exactly its amount.
pub proof fn lemma_book_sum_push(book: Seq<CounterOffer>, entry: CounterOffer)
    ensures
        book_sum(book.push(entry))
            == book_sum(book) + entry.open_interest.liquidity_coin.amount,
{
    assert(book.push(entry).drop_last() =~= book);
    assert(book.push(entry).last() == entry);
}

/// Removing an entry lowers the book sum by exactly its amount.
pub proof fn lemma_book_sum_remove(book: Seq<CounterOffer>, i: int)
    requires
        0 <= i < book.len(),
    ensures
        book_sum(book.remove(i))
            == book_sum(book) - book[i].open_interest.liquidity_coin.amount,
    decreases book.len(),
{
    book.remove_ensures(i);
    if i == book.len() - 1 {
        assert(book.remove(i) =~= book.drop_last());
    } else {
        assert(book.remove(i).drop_last() =~= book.drop_last().remove(i));
        lemma_book_sum_remove(book.drop_last(), i);
        assert(book.remove(i).last() == book.last());
    }
}

/// A book whose entries all escrow at least one unit sums to at least its
/// length.
pub proof fn lemma_book_sum_ge_len(book: Seq<CounterOffer>)
    requires
        forall|j: int|
            0 <= j < book.len()
                ==> #[trigger] book[j].open_interest.liquidity_coin.amount >= 1,
    ensures
        book_sum(book) >= book.len(),
    decreases book.len(),
{
    if book.len() > 0 {
        lemma_book_sum_ge_len(book.drop_last());
    }
}

/// The eviction scan's index names the earliest entry with the minimal
/// liquidity amount.
pub proof fn lemma_first_min_index_properties(book: Seq<CounterOffer>)
    requires
        book.len() > 0,
    ensures
        0 <= first_min_index(book) < book.len(),
        forall|j: int|
            0 <= j < book.len()
                ==> book[first_min_index(book)].open_interest.liquidity_coin.amount
                    <= #[trigger] book[j].open_interest.liquidity_coin.amount,
        forall|j: int|
            0 <= j < first_min_index(book)
                ==> #[trigger] book[j].open_interest.liquidity_coin.amount
                    > book[first_min_index(book)].open_interest.liquidity_coin.amount,
    decreases book.len(),
{
    if book.len() > 1 {
        let prefix = book.drop_last();
        lemma_first_min_index_properties(prefix);
        let rest = first_min_index(prefix);
        let w = first_min_index(book);
        assert(forall|j: int| 0 <= j < prefix.len() ==> prefix[j] == book[j]);
        if book.last().open_interest.liquidity_coin.amount
            < book[rest].open_interest.liquidity_coin.amount {
            assert(w == book.len() - 1);
            assert forall|j: int| 0 <= j < w implies
                #[trigger] book[j].open_interest.liquidity_coin.amount
                    > book[w].open_interest.liquidity_coin.amount by {
                assert(prefix[rest].open_interest.liquidity_coin.amount
                    <= prefix[j].open_interest.liquidity_coin.amount);
            }
        } else {
            assert(w == rest);
            assert(book[w] == prefix[rest]);
        }
    }
}

} // verus!
