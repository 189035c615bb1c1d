//! The constant-function market-maker pricing engine.
//!
//! The variant used here is deliberately non-custodial: a trade mints
//! outcome-token backing, so a YES-buy adds its whole amount to the YES
//! reserve and a NO-buy to the NO reserve, and reserves never shrink.  The
//! implied price of a side is the opposite reserve's share of the total,
//! fixed-point with `PRICE_SCALE` = 100%, checked against the trader's
//! maximum acceptable price when one is supplied.

use vstd::prelude::*;
use vstd::arithmetic::div_mod::lemma_div_is_ordered;
use vstd::arithmetic::div_mod::lemma_div_by_multiple;
use vstd::arithmetic::div_mod::lemma_div_pos_is_pos;
use vstd::arithmetic::mul::lemma_mul_inequality;
use vstd::arithmetic::mul::lemma_mul_nonnegative;

use crate::constants::HALF_PRICE;
use crate::constants::PRICE_SCALE;
use crate::errors::MarketError;
use crate::state::Side;

verus! {

/// One private trade: amount, side, and an optional cap on the post-trade
/// implied price.  Decrypted only inside the confidential compute
/// collaborator; the engine sees plain values there.
#[derive(Clone, Copy, Debug, PartialEq, Eq)]
pub struct PrivateTradeInput {
    pub user_amount: u64,
    pub side: Side,
    pub max_price: Option<u64>,
}

/// The public aggregate CFMM reserves.
#[derive(Clone, Copy, Debug, PartialEq, Eq, Structural)]
pub struct CfmmState {
    pub yes_reserves: u64,
    pub no_reserves: u64,
}

/// The implied price of `side`, fixed-point with `PRICE_SCALE` = 100%: the
/// opposite reserve's share of the total, or the 50/50 midpoint while both
/// reserves are empty.
pub open spec fn spec_implied_price(side: Side, yes_reserves: int, no_reserves: int) -> int {
    if yes_reserves + no_reserves > 0 {
        if side is Yes {
            (no_reserves * PRICE_SCALE) / (yes_reserves + no_reserves)
        } else {
            (yes_reserves * PRICE_SCALE) / (yes_reserves + no_reserves)
        }
    } else {
        HALF_PRICE as int
    }
}

/// The YES reserve after the trade.
pub open spec fn spec_trade_yes(input: PrivateTradeInput, state: CfmmState) -> int {
    if input.side is Yes {
        state.yes_reserves + input.user_amount
    } else {
        state.yes_reserves as int
    }
}

/// The NO reserve after the trade.
pub open spec fn spec_trade_no(input: PrivateTradeInput, state: CfmmState) -> int {
    if input.side is No {
        state.no_reserves + input.user_amount
    } else {
        state.no_reserves as int
    }
}

/// Whether the grown reserve still fits in 64 bits.
pub open spec fn trade_fits(input: PrivateTradeInput, state: CfmmState) -> bool {
    spec_trade_yes(input, state) <= u64::MAX && spec_trade_no(input, state) <= u64::MAX
}

/// Whether the post-trade implied price of the bought side respects the
/// trader's cap, when one was supplied.
pub open spec fn slippage_ok(input: PrivateTradeInput, state: CfmmState) -> bool {
    match input.max_price {
        Option::None => true,
        Option::Some(cap) => spec_implied_price(
            input.side,
            spec_trade_yes(input, state),
            spec_trade_no(input, state),
        ) <= cap,
    }
}

/// The reserves after a successful trade.
pub open spec fn spec_private_trade(input: PrivateTradeInput, state: CfmmState) -> CfmmState {
    CfmmState {
        yes_reserves: spec_trade_yes(input, state) as u64,
        no_reserves: spec_trade_no(input, state) as u64,
    }
}

/// The implied price lies within the fixed-point scale.
pub proof fn lemma_implied_price_bounded(side: Side, yes_reserves: int, no_reserves: int)
    requires
        yes_reserves >= 0,
        no_reserves >= 0,
    ensures
        0 <= spec_implied_price(side, yes_reserves, no_reserves) <= PRICE_SCALE,
{
    let total = yes_reserves + no_reserves;
    if total > 0 {
        let opposite = if side is Yes {
            no_reserves
        } else {
            yes_reserves
        };
        lemma_mul_nonnegative(opposite, PRICE_SCALE as int);
        lemma_div_pos_is_pos(opposite * PRICE_SCALE, total);
        lemma_mul_inequality(opposite, total, PRICE_SCALE as int);
        lemma_div_is_ordered(opposite * PRICE_SCALE, total * PRICE_SCALE, total);
        lemma_div_by_multiple(PRICE_SCALE as int, total);
    }
}

/// A trade only grows reserves: the updated side gains the full amount, the
/// other side is untouched, and a positive reserve product stays positive.
pub proof fn lemma_trade_grows_reserves(input: PrivateTradeInput, state: CfmmState)
    ensures
        spec_trade_yes(input, state) >= state.yes_reserves,
        spec_trade_no(input, state) >= state.no_reserves,
        state.yes_reserves > 0 && state.no_reserves > 0 ==> spec_trade_yes(input, state)
            * spec_trade_no(input, state) > 0,
{
    if state.yes_reserves > 0 && state.no_reserves > 0 {
        vstd::arithmetic::mul::lemma_mul_strictly_positive(
            spec_trade_yes(input, state),
            spec_trade_no(input, state),
        );
    }
}

/// The implied price of `side` at the given reserves.
pub fn implied_price(side: Side, yes_reserves: u64, no_reserves: u64) -> (r: u64)
    ensures
        r == spec_implied_price(side, yes_reserves as int, no_reserves as int),
        r <= PRICE_SCALE,
{
    proof {
        lemma_implied_price_bounded(side, yes_reserves as int, no_reserves as int);
    }
    let total: u128 = (yes_reserves as u128) + (no_reserves as u128);
    if total > 0 {
        let opposite: u128 = match side {
            Side::Yes => no_reserves as u128,
            Side::No => yes_reserves as u128,
        };
        ((opposite * (PRICE_SCALE as u128)) / total) as u64
    } else {
        HALF_PRICE
    }
}

/// Executes one trade against the current reserves: the bought side's
/// reserve grows by the full amount.  Fails with `Overflow`, changing
/// nothing, when the grown reserve would not fit in 64 bits, and with
/// `SlippageExceeded` when a supplied price cap is below the post-trade
/// implied price of the bought side.
pub fn private_trade(input: &PrivateTradeInput, state: &CfmmState) -> (r: Result<
    CfmmState,
    MarketError,
>)
    ensures
        !trade_fits(*input, *state) ==> r == Err::<CfmmState, MarketError>(MarketError::Overflow),
        trade_fits(*input, *state) && !slippage_ok(*input, *state) ==> r == Err::<
            CfmmState,
            MarketError,
        >(MarketError::SlippageExceeded),
        trade_fits(*input, *state) && slippage_ok(*input, *state) ==> r == Ok::<
            CfmmState,
            MarketError,
        >(spec_private_trade(*input, *state)),
        r matches Ok(ns) ==> ns.yes_reserves >= state.yes_reserves && ns.no_reserves
            >= state.no_reserves,
{
    let new_yes: u64 = match input.side {
        Side::Yes => match state.yes_reserves.checked_add(input.user_amount) {
            Some(v) => v,
            None => {
                return Err(MarketError::Overflow);
            },
        },
        Side::No => state.yes_reserves,
    };
    let new_no: u64 = match input.side {
        Side::Yes => state.no_reserves,
        Side::No => match state.no_reserves.checked_add(input.user_amount) {
            Some(v) => v,
            None => {
                return Err(MarketError::Overflow);
            },
        },
    };
    match input.max_price {
        Some(cap) => {
            let price = implied_price(input.side, new_yes, new_no);
            if price > cap {
                return Err(MarketError::SlippageExceeded);
            }
        },
        None => {},
    }
    Ok(CfmmState { yes_reserves: new_yes, no_reserves: new_no })
}

} // verus!
