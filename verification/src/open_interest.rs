//! The open-interest lifecycle: posting terms, closing them, and direct
//! funding at the posted terms.

use vstd::prelude::*;
use crate::decimal::{dec_str, decimal_string};
use crate::error::ContractError;
use crate::helpers::{
    balance_of, cap_u128, funds_sum, minimum_collateral_lock_for_denom,
    minimum_collateral_lock_overflows, query_balance, spec_minimum_collateral_lock,
    sum_funds_capped,
};
use crate::state::VaultState;
use crate::types::{
    Attribute, ChainInfo, ChainMsg, Coin, MessageInfo, Env, OpenInterest, Response, attr,
    interest_matches,
};

verus! {

/// A coin is usable when it carries a positive amount and a nonempty
/// denomination.
pub open spec fn coin_valid(c: Coin) -> bool {
    c.amount > 0 && c.denom@.len() > 0
}

/// Checks one coin field of a term record.
fn validate_coin(coin: &Coin, field: &str) -> (r: Result<(), ContractError>)
    ensures
        r is Ok <==> coin_valid(*coin),
        r is Err ==> if coin.amount == 0 {
            (r->Err_0 matches ContractError::InvalidCoinAmount { field: f } && f@ == field@)
        } else {
            coin.denom@.len() == 0 && (r->Err_0 matches ContractError::InvalidCoinDenom {
                field: f,
            } && f@ == field@)
        },
{
    if coin.amount == 0 {
        return Err(ContractError::InvalidCoinAmount { field: field.to_owned() });
    }
    if coin.denom.as_str().is_empty() {
        return Err(ContractError::InvalidCoinDenom { field: field.to_owned() });
    }
    Ok(())
}

/// Whether liquidity and interest share one denomination, so that repayment
/// merges them into a single total.
pub open spec fn repayment_merged(oi: OpenInterest) -> bool {
    oi.liquidity_coin.denom@ == oi.interest_coin.denom@
}

/// Whether the merged repayment total exceeds the transfer width.
pub open spec fn repayment_overflows(oi: OpenInterest) -> bool {
    repayment_merged(oi)
        && oi.liquidity_coin.amount + oi.interest_coin.amount > u128::MAX as int
}

/// The totals owed at repayment, one coin per denomination: merged when
/// liquidity and interest share a denomination, otherwise the liquidity
/// total first and the interest total second.
pub fn build_repayment_amounts(oi: &OpenInterest) -> (r: Result<Vec<Coin>, ContractError>)
    ensures
        r is Ok <==> !repayment_overflows(*oi),
        r matches Ok(v) ==> v@ == if repayment_merged(*oi) {
            seq![
                Coin {
                    denom: oi.liquidity_coin.denom,
                    amount: (oi.liquidity_coin.amount + oi.interest_coin.amount) as u128,
                },
            ]
        } else {
            seq![oi.liquidity_coin, oi.interest_coin]
        },
        r is Err ==> (r->Err_0 matches ContractError::RepaymentAmountOverflow {
            denom,
            liquidity_amount,
            interest_amount,
        } && denom@ == oi.liquidity_coin.denom@
            && liquidity_amount == oi.liquidity_coin.amount
            && interest_amount == oi.interest_coin.amount),
{
    let mut totals: Vec<Coin> = Vec::new();
    if oi.liquidity_coin.denom == oi.interest_coin.denom {
        if oi.liquidity_coin.amount > u128::MAX - oi.interest_coin.amount {
            return Err(ContractError::RepaymentAmountOverflow {
                denom: oi.liquidity_coin.denom.clone(),
                liquidity_amount: oi.liquidity_coin.amount,
                interest_amount: oi.interest_coin.amount,
            });
        }
        totals.push(Coin {
            denom: oi.liquidity_coin.denom.clone(),
            amount: oi.liquidity_coin.amount + oi.interest_coin.amount,
        });
    } else {
        totals.push(oi.liquidity_coin.clone());
        totals.push(oi.interest_coin.clone());
    }
    proof {
        if repayment_merged(*oi) {
            assert(totals@ =~= seq![
                Coin {
                    denom: oi.liquidity_coin.denom,
                    amount: (oi.liquidity_coin.amount + oi.interest_coin.amount) as u128,
                },
            ]);
        } else {
            assert(totals@ =~= seq![oi.liquidity_coin, oi.interest_coin]);
        }
    }
    Ok(totals)
}

/// Whether the vault can cover the collateral of these terms: directly from
/// its balance, or — for the staking denomination — with the help of
/// claimable rewards and staked balance.
pub open spec fn spec_collateral_ok(chain: ChainInfo, oi: OpenInterest) -> bool {
    let avail = balance_of(chain.balances@, oi.collateral.denom@);
    let req = oi.collateral.amount as int;
    let lock = spec_minimum_collateral_lock(chain, oi.collateral.denom@, Some(oi));
    let cov = if req >= lock { req - lock } else { 0 };
    ||| avail >= req
    ||| (!minimum_collateral_lock_overflows(chain, oi.collateral.denom@, Some(oi)) && (avail >= lock
        || (avail + cov <= u128::MAX as int && avail + cov >= req)))
}

/// Which error a failing collateral check produces, following the order in
/// which the conditions are examined.
pub open spec fn spec_collateral_error(chain: ChainInfo, oi: OpenInterest, e: ContractError) -> bool {
    let avail = balance_of(chain.balances@, oi.collateral.denom@);
    let req = oi.collateral.amount as int;
    let lock = spec_minimum_collateral_lock(chain, oi.collateral.denom@, Some(oi));
    let cov = if req >= lock { req - lock } else { 0 };
    if avail >= req {
        false
    } else if minimum_collateral_lock_overflows(chain, oi.collateral.denom@, Some(oi)) {
        e is ArithmeticOverflow
    } else if avail >= lock {
        false
    } else if avail + cov > u128::MAX as int {
        (e matches ContractError::ArithmeticOverflow { denom } && denom@ == oi.collateral.denom@)
    } else {
        avail + cov < req && (e matches ContractError::InsufficientBalance {
            denom,
            available,
            requested,
        } && denom@ == oi.collateral.denom@
            && available as int == avail + cov
            && requested == oi.collateral.amount)
    }
}

/// Checks collateral availability against the chain snapshot.
fn ensure_collateral_available(chain: &ChainInfo, oi: &OpenInterest) -> (r: Result<
    (),
    ContractError,
>)
    ensures
        r is Ok <==> spec_collateral_ok(*chain, *oi),
        r is Err ==> spec_collateral_error(*chain, *oi, r->Err_0),
{
    let requested = oi.collateral.amount;
    let available = query_balance(chain, &oi.collateral.denom);
    if available >= requested {
        return Ok(());
    }
    let required_lock = match minimum_collateral_lock_for_denom(
        chain,
        &oi.collateral.denom,
        Some(oi),
    ) {
        Ok(v) => v,
        Err(e) => {
            return Err(e);
        },
    };
    if available >= required_lock {
        return Ok(());
    }
    let staking_coverage = if requested >= required_lock {
        requested - required_lock
    } else {
        0
    };
    if available > u128::MAX - staking_coverage {
        return Err(ContractError::ArithmeticOverflow { denom: oi.collateral.denom.clone() });
    }
    let effective = available + staking_coverage;
    if effective >= requested {
        return Ok(());
    }
    Err(ContractError::InsufficientBalance {
        denom: oi.collateral.denom.clone(),
        available: effective,
        requested,
    })
}

/// The eight attributes that describe one term record.
pub open spec fn oi_attrs_prefix(attrs: Seq<Attribute>, action: Seq<char>, oi: OpenInterest) -> bool {
    &&& attrs.len() >= 8
    &&& attrs[0].key@ == "action"@ && attrs[0].value@ == action
    &&& attrs[1].key@ == "liquidity_denom"@ && attrs[1].value@ == oi.liquidity_coin.denom@
    &&& attrs[2].key@ == "liquidity_amount"@
        && attrs[2].value@ == dec_str(oi.liquidity_coin.amount as nat)
    &&& attrs[3].key@ == "interest_denom"@ && attrs[3].value@ == oi.interest_coin.denom@
    &&& attrs[4].key@ == "interest_amount"@
        && attrs[4].value@ == dec_str(oi.interest_coin.amount as nat)
    &&& attrs[5].key@ == "collateral_denom"@ && attrs[5].value@ == oi.collateral.denom@
    &&& attrs[6].key@ == "collateral_amount"@
        && attrs[6].value@ == dec_str(oi.collateral.amount as nat)
    &&& attrs[7].key@ == "expiry_duration"@
        && attrs[7].value@ == dec_str(oi.expiry_duration as nat)
}

/// Builds the descriptive attributes of one term record.
pub fn open_interest_attributes(action: &str, oi: &OpenInterest) -> (v: Vec<Attribute>)
    ensures
        v@.len() == 8,
        oi_attrs_prefix(v@, action@, *oi),
{
    let mut v: Vec<Attribute> = Vec::new();
    v.push(Attribute { key: "action".to_owned(), value: action.to_owned() });
    v.push(Attribute { key: "liquidity_denom".to_owned(), value: oi.liquidity_coin.denom.clone() });
    v.push(Attribute {
        key: "liquidity_amount".to_owned(),
        value: decimal_string(oi.liquidity_coin.amount),
    });
    v.push(Attribute { key: "interest_denom".to_owned(), value: oi.interest_coin.denom.clone() });
    v.push(Attribute {
        key: "interest_amount".to_owned(),
        value: decimal_string(oi.interest_coin.amount),
    });
    v.push(Attribute { key: "collateral_denom".to_owned(), value: oi.collateral.denom.clone() });
    v.push(Attribute {
        key: "collateral_amount".to_owned(),
        value: decimal_string(oi.collateral.amount),
    });
    v.push(Attribute {
        key: "expiry_duration".to_owned(),
        value: decimal_string(oi.expiry_duration as u128),
    });
    v
}

/// Validates a term record in full: usable coins, a positive expiry, a
/// repayment total that fits the transfer width, and available collateral.
pub fn validate_open_interest(chain: &ChainInfo, oi: &OpenInterest) -> (r: Result<
    (),
    ContractError,
>)
    ensures
        r is Ok <==> open_terms_valid(*chain, *oi),
        r is Err ==> open_terms_error(*chain, *oi, r->Err_0),
{
    match validate_coin(&oi.liquidity_coin, "liquidity_coin") {
        Err(e) => {
            return Err(e);
        },
        Ok(()) => {},
    }
    match validate_coin(&oi.interest_coin, "interest_coin") {
        Err(e) => {
            return Err(e);
        },
        Ok(()) => {},
    }
    match validate_coin(&oi.collateral, "collateral") {
        Err(e) => {
            return Err(e);
        },
        Ok(()) => {},
    }
    if oi.expiry_duration == 0 {
        return Err(ContractError::InvalidExpiryDuration);
    }
    match build_repayment_amounts(oi) {
        Err(e) => {
            return Err(e);
        },
        Ok(_) => {},
    }
    match ensure_collateral_available(chain, oi) {
        Err(e) => {
            return Err(e);
        },
        Ok(()) => {},
    }
    Ok(())
}

/// Every condition a term record must meet to be posted.
pub open spec fn open_terms_valid(chain: ChainInfo, oi: OpenInterest) -> bool {
    &&& coin_valid(oi.liquidity_coin)
    &&& coin_valid(oi.interest_coin)
    &&& coin_valid(oi.collateral)
    &&& oi.expiry_duration > 0
    &&& !repayment_overflows(oi)
    &&& spec_collateral_ok(chain, oi)
}

/// Which error invalid terms produce, following the order in which the
/// conditions are checked.
pub open spec fn open_terms_error(chain: ChainInfo, oi: OpenInterest, e: ContractError) -> bool {
    if !coin_valid(oi.liquidity_coin) {
        coin_error(oi.liquidity_coin, "liquidity_coin"@, e)
    } else if !coin_valid(oi.interest_coin) {
        coin_error(oi.interest_coin, "interest_coin"@, e)
    } else if !coin_valid(oi.collateral) {
        coin_error(oi.collateral, "collateral"@, e)
    } else if oi.expiry_duration == 0 {
        e is InvalidExpiryDuration
    } else if repayment_overflows(oi) {
        (e matches ContractError::RepaymentAmountOverflow {
            denom,
            liquidity_amount,
            interest_amount,
        } && denom@ == oi.liquidity_coin.denom@
            && liquidity_amount == oi.liquidity_coin.amount
            && interest_amount == oi.interest_coin.amount)
    } else {
        spec_collateral_error(chain, oi, e)
    }
}

/// Which error an unusable coin field produces.
pub open spec fn coin_error(c: Coin, field: Seq<char>, e: ContractError) -> bool {
    if c.amount == 0 {
        (e matches ContractError::InvalidCoinAmount { field: f } && f@ == field)
    } else {
        c.denom@.len() == 0 && (e matches ContractError::InvalidCoinDenom { field: f }
            && f@ == field)
    }
}

/// Every condition an open call checks, in force exactly when it succeeds.
pub open spec fn open_accepted(
    pre: VaultState,
    info: MessageInfo,
    chain: ChainInfo,
    oi: OpenInterest,
) -> bool {
    &&& info.sender@ == pre.owner@
    &&& pre.open_interest is None
    &&& open_terms_valid(chain, oi)
}

/// Which error a failing open call returns.
pub open spec fn open_error(
    pre: VaultState,
    info: MessageInfo,
    chain: ChainInfo,
    oi: OpenInterest,
    e: ContractError,
) -> bool {
    if info.sender@ != pre.owner@ {
        e is Unauthorized
    } else if pre.open_interest is Some {
        e is OpenInterestAlreadyExists
    } else {
        open_terms_error(chain, oi, e)
    }
}

/// Posts new loan terms for the vault's single position.
///
/// Owner-only; fails while other terms are active, on unusable coins, on a
/// repayment total beyond the transfer width, and on uncovered collateral.
pub fn execute(
    state: &mut VaultState,
    info: &MessageInfo,
    chain: &ChainInfo,
    open_interest: OpenInterest,
) -> (r: Result<Response, ContractError>)
    requires
        old(state).wf(),
    ensures
        final(state).wf(),
        r is Ok <==> open_accepted(*old(state), *info, *chain, open_interest),
        r matches Ok(resp) ==> *final(state) == (VaultState {
            open_interest: Some(open_interest),
            ..*old(state)
        }) && resp.messages@.len() == 0 && resp.attributes@.len() == 8
            && oi_attrs_prefix(resp.attributes@, "open_interest"@, open_interest),
        r is Err ==> *final(state) == *old(state)
            && open_error(*old(state), *info, *chain, open_interest, r->Err_0),
{
    if !(info.sender == state.owner) {
        return Err(ContractError::Unauthorized);
    }
    if state.open_interest.is_some() {
        return Err(ContractError::OpenInterestAlreadyExists);
    }
    match validate_open_interest(chain, &open_interest) {
        Err(e) => {
            return Err(e);
        },
        Ok(()) => {},
    }
    let attributes = open_interest_attributes("open_interest", &open_interest);
    state.open_interest = Some(open_interest);
    Ok(Response { messages: Vec::new(), attributes })
}

/// How a refund sweep empties the book: one transfer per entry, in book
/// order, each returning the full escrow, with book and debt cleared.
pub open spec fn book_refunded(
    pre: VaultState,
    post: VaultState,
    msgs: Seq<ChainMsg>,
) -> bool {
    &&& post.owner == pre.owner
    &&& post.lender == pre.lender
    &&& post.open_interest == pre.open_interest
    &&& post.open_interest_expiry == pre.open_interest_expiry
    &&& post.liquidation_unbonding_duration == pre.liquidation_unbonding_duration
    &&& post.last_liquidation_unbonding == pre.last_liquidation_unbonding
    &&& post.counter_offers@.len() == 0
    &&& post.outstanding_debt is None
    &&& msgs.len() == pre.counter_offers@.len()
    &&& forall|k: int|
        0 <= k < msgs.len() ==> (#[trigger] msgs[k] matches ChainMsg::Send { to_address, amount }
            && to_address == pre.counter_offers@[k].proposer
            && amount@ == seq![pre.counter_offers@[k].open_interest.liquidity_coin])
}

/// Refunds every escrowed counter offer in book order and clears the book
/// and the escrow debt.
fn refund_counter_offer_escrow(state: &mut VaultState) -> (msgs: Vec<ChainMsg>)
    ensures
        book_refunded(*old(state), *final(state), msgs@),
{
    let n = state.counter_offers.len();
    let mut msgs: Vec<ChainMsg> = Vec::new();
    for k in 0..n
        invariant
            n == state.counter_offers@.len(),
            *state == *old(state),
            msgs@.len() == k,
            forall|m: int|
                0 <= m < k ==> (#[trigger] msgs@[m] matches ChainMsg::Send { to_address, amount }
                    && to_address == state.counter_offers@[m].proposer
                    && amount@ == seq![state.counter_offers@[m].open_interest.liquidity_coin]),
    {
        let mut refund_coins: Vec<Coin> = Vec::new();
        refund_coins.push(state.counter_offers[k].open_interest.liquidity_coin.clone());
        msgs.push(ChainMsg::Send {
            to_address: state.counter_offers[k].proposer.clone(),
            amount: refund_coins,
        });
    }
    state.counter_offers = Vec::new();
    state.outstanding_debt = None;
    msgs
}

/// Which error a failing close call returns.
pub open spec fn close_error(pre: VaultState, info: MessageInfo, e: ContractError) -> bool {
    if info.sender@ != pre.owner@ {
        e is Unauthorized
    } else if pre.lender is Some {
        e is LenderAlreadySet
    } else {
        pre.open_interest is None && e is NoOpenInterest
    }
}

/// Closes the active open interest before any lender is bound: every
/// escrowed counter offer is refunded, and book, escrow debt and terms are
/// cleared.
pub fn close(state: &mut VaultState, info: &MessageInfo) -> (r: Result<Response, ContractError>)
    requires
        old(state).wf(),
    ensures
        final(state).wf(),
        r is Ok <==> info.sender@ == old(state).owner@ && old(state).lender is None
            && old(state).open_interest is Some,
        r matches Ok(resp) ==> {
            let cleared = VaultState { open_interest: None, ..*old(state) };
            &&& book_refunded(cleared, *final(state), resp.messages@)
            &&& resp.attributes@.len() == 7
            &&& resp.attributes@[0].key@ == "action"@
            &&& resp.attributes@[0].value@ == "close_open_interest"@
            &&& oi_attrs_tail(resp.attributes@, old(state).open_interest->Some_0)
        },
        r is Err ==> *final(state) == *old(state) && close_error(*old(state), *info, r->Err_0),
{
    if !(info.sender == state.owner) {
        return Err(ContractError::Unauthorized);
    }
    if state.lender.is_some() {
        return Err(ContractError::LenderAlreadySet);
    }
    let open_interest = match &state.open_interest {
        Some(oi) => oi.clone(),
        None => {
            return Err(ContractError::NoOpenInterest);
        },
    };
    state.open_interest = None;
    let msgs = refund_counter_offer_escrow(state);

    let mut attributes: Vec<Attribute> = Vec::new();
    attributes.push(attr("action", "close_open_interest"));
    attributes.push(Attribute {
        key: "liquidity_denom".to_owned(),
        value: open_interest.liquidity_coin.denom.clone(),
    });
    attributes.push(Attribute {
        key: "liquidity_amount".to_owned(),
        value: decimal_string(open_interest.liquidity_coin.amount),
    });
    attributes.push(Attribute {
        key: "interest_denom".to_owned(),
        value: open_interest.interest_coin.denom.clone(),
    });
    attributes.push(Attribute {
        key: "interest_amount".to_owned(),
        value: decimal_string(open_interest.interest_coin.amount),
    });
    attributes.push(Attribute {
        key: "collateral_denom".to_owned(),
        value: open_interest.collateral.denom.clone(),
    });
    attributes.push(Attribute {
        key: "collateral_amount".to_owned(),
        value: decimal_string(open_interest.collateral.amount),
    });
    Ok(Response { messages: msgs, attributes })
}

/// The six attributes after `action` that repeat a closed record's coins.
pub open spec fn oi_attrs_tail(attrs: Seq<Attribute>, oi: OpenInterest) -> bool {
    &&& attrs.len() >= 7
    &&& attrs[1].key@ == "liquidity_denom"@ && attrs[1].value@ == oi.liquidity_coin.denom@
    &&& attrs[2].key@ == "liquidity_amount"@
        && attrs[2].value@ == dec_str(oi.liquidity_coin.amount as nat)
    &&& attrs[3].key@ == "interest_denom"@ && attrs[3].value@ == oi.interest_coin.denom@
    &&& attrs[4].key@ == "interest_amount"@
        && attrs[4].value@ == dec_str(oi.interest_coin.amount as nat)
    &&& attrs[5].key@ == "collateral_denom"@ && attrs[5].value@ == oi.collateral.denom@
    &&& attrs[6].key@ == "collateral_amount"@
        && attrs[6].value@ == dec_str(oi.collateral.amount as nat)
}

/// Every condition a fund call checks, in force exactly when it succeeds.
pub open spec fn fund_accepted(pre: VaultState, info: MessageInfo, expected: OpenInterest) -> bool {
    &&& pre.open_interest is Some
    &&& pre.lender is None
    &&& interest_matches(pre.open_interest->Some_0, expected)
    &&& funds_sum(info.funds@, pre.open_interest->Some_0.liquidity_coin.denom@)
        == pre.open_interest->Some_0.liquidity_coin.amount as int
}

/// Which error a failing fund call returns.
pub open spec fn fund_error(
    pre: VaultState,
    info: MessageInfo,
    expected: OpenInterest,
    e: ContractError,
) -> bool {
    let oi = pre.open_interest->Some_0;
    if pre.open_interest is None {
        e is NoOpenInterest
    } else if pre.lender is Some {
        e is LenderAlreadySet
    } else if !interest_matches(oi, expected) {
        e is OpenInterestMismatch
    } else {
        funds_sum(info.funds@, oi.liquidity_coin.denom@) != oi.liquidity_coin.amount as int && (
        e matches ContractError::OpenInterestFundingMismatch { denom, expected: exp, received }
            && denom@ == oi.liquidity_coin.denom@
            && exp == oi.liquidity_coin.amount
            && received as int == cap_u128(funds_sum(info.funds@, oi.liquidity_coin.denom@)))
    }
}

/// How a successful fund call transforms the state: the caller becomes the
/// lender until the fresh expiry, and the auction dissolves — every counter
/// offer is refunded and book and escrow debt are cleared.
pub open spec fn fund_applied(
    pre: VaultState,
    post: VaultState,
    resp: Response,
    env: Env,
    info: MessageInfo,
) -> bool {
    let oi = pre.open_interest->Some_0;
    let swept = VaultState {
        lender: Some(info.sender),
        open_interest_expiry: Some((env.block_time + oi.expiry_duration) as u64),
        ..pre
    };
    &&& book_refunded(swept, post, resp.messages@)
    &&& resp.attributes@.len() == 10
    &&& oi_attrs_prefix(resp.attributes@, "fund_open_interest"@, oi)
    &&& resp.attributes@[8].key@ == "lender"@
    &&& resp.attributes@[8].value@ == info.sender@
    &&& resp.attributes@[9].key@ == "refunded_offers"@
    &&& resp.attributes@[9].value@ == dec_str(pre.counter_offers@.len() as nat)
}

/// Funds the posted terms directly, bypassing the auction. The attached
/// funds must equal the liquidity amount exactly; the caller becomes the
/// lender and every escrowed counter offer is refunded.
pub fn fund(
    state: &mut VaultState,
    env: &Env,
    info: &MessageInfo,
    expected_interest: OpenInterest,
) -> (r: Result<Response, ContractError>)
    requires
        old(state).wf(),
        match old(state).open_interest {
            Some(oi) => env.block_time + oi.expiry_duration <= u64::MAX,
            None => true,
        },
    ensures
        final(state).wf(),
        r is Ok <==> fund_accepted(*old(state), *info, expected_interest),
        r matches Ok(resp) ==> fund_applied(*old(state), *final(state), resp, *env, *info),
        r is Err ==> *final(state) == *old(state)
            && fund_error(*old(state), *info, expected_interest, r->Err_0),
{
    let open_interest = match &state.open_interest {
        Some(oi) => oi.clone(),
        None => {
            return Err(ContractError::NoOpenInterest);
        },
    };
    if state.lender.is_some() {
        return Err(ContractError::LenderAlreadySet);
    }
    if !open_interest.same_as(&expected_interest) {
        return Err(ContractError::OpenInterestMismatch);
    }
    let expected = open_interest.liquidity_coin.amount;
    let (received, clipped) = sum_funds_capped(&info.funds, &open_interest.liquidity_coin.denom);
    if clipped || received != expected {
        return Err(ContractError::OpenInterestFundingMismatch {
            denom: open_interest.liquidity_coin.denom.clone(),
            expected,
            received,
        });
    }

    let ghost pre = *state;
    let refund_count = state.counter_offers.len();
    let expiry = env.block_time + open_interest.expiry_duration;
    state.set_active_lender(info.sender.clone(), expiry);
    let msgs = refund_counter_offer_escrow(state);

    let mut attributes = open_interest_attributes("fund_open_interest", &open_interest);
    attributes.push(Attribute { key: "lender".to_owned(), value: info.sender.clone() });
    attributes.push(Attribute {
        key: "refunded_offers".to_owned(),
        value: decimal_string(refund_count as u128),
    });
    Ok(Response { messages: msgs, attributes })
}

} // verus!
