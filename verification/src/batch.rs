//! The batch auction clearer: one uniform clearing price and per-side fills
//! for the multiset of orders collected during a batch window.
//!
//! The algorithm depends only on aggregate per-side demand, never on
//! submission order; `lemma_batch_clear_order_invariant` proves that.
//! Reserves grow by the *opposite* side's fill, mirroring the minted-backing
//! reserve model of the trading engine.

use vstd::prelude::*;
use vstd::arithmetic::div_mod::lemma_div_is_ordered;
use vstd::arithmetic::div_mod::lemma_div_by_multiple;
use vstd::arithmetic::mul::lemma_mul_inequality;

use crate::constants::HALF_PRICE;
use crate::constants::PRICE_SCALE;
use crate::errors::MarketError;
use crate::state::Side;
use crate::sums::additive;
use crate::sums::nonneg_step;
use crate::sums::lemma_fold_nonneg;
use crate::sums::lemma_fold_push;
use crate::sums::lemma_fold_split;
use crate::sums::lemma_fold_permutation;

verus! {

/// One order of the batch: amount, side, and the submitter's limit price.
/// Orders are aggregated client-side and revealed only to the confidential
/// compute collaborator; the clearer sees them as plain values there.
#[derive(Clone, Copy, Debug, PartialEq, Eq, Structural)]
pub struct BatchOrder {
    pub amount: u64,
    pub side: Side,
    pub limit_price: u64,
}

/// The outcome of clearing one batch.
#[derive(Clone, Copy, Debug, PartialEq, Eq, Structural)]
pub struct BatchClearResult {
    /// The uniform clearing price, fixed-point with `PRICE_SCALE` = 100%.
    pub clearing_price: u64,
    /// Total YES-side demand filled.
    pub total_yes_filled: u64,
    /// Total NO-side demand filled.
    pub total_no_filled: u64,
    /// YES reserves after adding the NO-side fill.
    pub new_yes_reserves: u64,
    /// NO reserves after adding the YES-side fill.
    pub new_no_reserves: u64,
}

/// The contribution of one order to YES-side demand.
pub open spec fn yes_step() -> spec_fn(BatchOrder, int) -> int {
    |o: BatchOrder, acc: int| if o.side is Yes { acc + o.amount } else { acc }
}

/// The contribution of one order to NO-side demand.
pub open spec fn no_step() -> spec_fn(BatchOrder, int) -> int {
    |o: BatchOrder, acc: int| if o.side is No { acc + o.amount } else { acc }
}

/// Total YES-side demand of a batch.
pub open spec fn yes_demand(orders: Seq<BatchOrder>) -> int {
    orders.fold_right(yes_step(), 0)
}

/// Total NO-side demand of a batch.
pub open spec fn no_demand(orders: Seq<BatchOrder>) -> int {
    orders.fold_right(no_step(), 0)
}

/// The uniform clearing price for the given per-side demands, fixed-point
/// with `PRICE_SCALE` standing for 100%.  When either side is empty the
/// price defaults to the 50/50 midpoint.
pub open spec fn spec_clearing_price(d_yes: int, d_no: int) -> int {
    if d_yes > 0 && d_no > 0 {
        (d_no * PRICE_SCALE) / (d_yes + d_no)
    } else {
        HALF_PRICE as int
    }
}

/// YES-side fill: full below the midpoint price, half otherwise.  The
/// halving at and above the midpoint is the deliberate tie-break rule.
pub open spec fn spec_yes_fill(d_yes: int, price: int) -> int {
    if price < HALF_PRICE { d_yes } else { d_yes / 2 }
}

/// NO-side fill: full above the midpoint price, half otherwise.
pub open spec fn spec_no_fill(d_no: int, price: int) -> int {
    if price > HALF_PRICE { d_no } else { d_no / 2 }
}

/// Whether every aggregate the clearer computes fits in 64 bits.
pub open spec fn batch_clear_fits(orders: Seq<BatchOrder>, yes_reserves: u64, no_reserves: u64) -> bool {
    let d_yes = yes_demand(orders);
    let d_no = no_demand(orders);
    let price = spec_clearing_price(d_yes, d_no);
    &&& d_yes <= u64::MAX
    &&& d_no <= u64::MAX
    &&& yes_reserves + spec_no_fill(d_no, price) <= u64::MAX
    &&& no_reserves + spec_yes_fill(d_yes, price) <= u64::MAX
}

/// The full clearing outcome for the given batch and reserve snapshot.
pub open spec fn spec_batch_clear(orders: Seq<BatchOrder>, yes_reserves: u64, no_reserves: u64) -> BatchClearResult {
    let d_yes = yes_demand(orders);
    let d_no = no_demand(orders);
    let price = spec_clearing_price(d_yes, d_no);
    BatchClearResult {
        clearing_price: price as u64,
        total_yes_filled: spec_yes_fill(d_yes, price) as u64,
        total_no_filled: spec_no_fill(d_no, price) as u64,
        new_yes_reserves: (yes_reserves + spec_no_fill(d_no, price)) as u64,
        new_no_reserves: (no_reserves + spec_yes_fill(d_yes, price)) as u64,
    }
}

/// The demand steps are additive with non-negative contributions.
proof fn lemma_step_props()
    ensures
        additive(yes_step()),
        additive(no_step()),
        nonneg_step(yes_step()),
        nonneg_step(no_step()),
{
}

/// Demands are non-negative.
pub proof fn lemma_demand_nonneg(orders: Seq<BatchOrder>)
    ensures
        yes_demand(orders) >= 0,
        no_demand(orders) >= 0,
{
    lemma_step_props();
    lemma_fold_nonneg(orders, yes_step());
    lemma_fold_nonneg(orders, no_step());
}

/// The clearing price never exceeds the full scale.
pub proof fn lemma_price_bounded(d_yes: int, d_no: int)
    requires
        d_yes >= 0,
        d_no >= 0,
    ensures
        0 <= spec_clearing_price(d_yes, d_no) <= PRICE_SCALE,
{
    if d_yes > 0 && d_no > 0 {
        lemma_mul_inequality(d_no, d_yes + d_no, PRICE_SCALE as int);
        lemma_div_is_ordered(d_no * PRICE_SCALE, (d_yes + d_no) * PRICE_SCALE, d_yes + d_no);
        lemma_div_by_multiple(PRICE_SCALE as int, d_yes + d_no);
        vstd::arithmetic::div_mod::lemma_div_pos_is_pos(d_no * PRICE_SCALE, d_yes + d_no);
        vstd::arithmetic::mul::lemma_mul_nonnegative(d_no, PRICE_SCALE as int);
    }
}

/// Batch clearing is order-invariant: two batches holding the same multiset
/// of orders clear at the same price, with the same fills and the same
/// updated reserves.
pub proof fn lemma_batch_clear_order_invariant(
    s1: Seq<BatchOrder>,
    s2: Seq<BatchOrder>,
    yes_reserves: u64,
    no_reserves: u64,
)
    requires
        s1.to_multiset() == s2.to_multiset(),
    ensures
        yes_demand(s1) == yes_demand(s2),
        no_demand(s1) == no_demand(s2),
        spec_batch_clear(s1, yes_reserves, no_reserves) == spec_batch_clear(
            s2,
            yes_reserves,
            no_reserves,
        ),
        batch_clear_fits(s1, yes_reserves, no_reserves) == batch_clear_fits(
            s2,
            yes_reserves,
            no_reserves,
        ),
{
    lemma_step_props();
    lemma_fold_permutation(s1, s2, yes_step());
    lemma_fold_permutation(s1, s2, no_step());
}

/// Clears one batch: computes the uniform clearing price and per-side fills
/// from aggregate demand alone, and grows each reserve by the opposite
/// side's fill.  Fails with `Overflow`, changing nothing, exactly when some
/// aggregate does not fit in 64 bits.
pub fn batch_clear(orders: &Vec<BatchOrder>, yes_reserves: u64, no_reserves: u64) -> (r: Result<
    BatchClearResult,
    MarketError,
>)
    ensures
        batch_clear_fits(orders@, yes_reserves, no_reserves) ==> r == Ok::<
            BatchClearResult,
            MarketError,
        >(spec_batch_clear(orders@, yes_reserves, no_reserves)),
        !batch_clear_fits(orders@, yes_reserves, no_reserves) ==> r == Err::<
            BatchClearResult,
            MarketError,
        >(MarketError::Overflow),
        r matches Ok(res) ==> res.new_yes_reserves >= yes_reserves && res.new_no_reserves
            >= no_reserves && res.clearing_price <= PRICE_SCALE,
{
    proof {
        lemma_step_props();
        lemma_demand_nonneg(orders@);
    }
    let n = orders.len();
    let mut d_yes: u64 = 0;
    let mut d_no: u64 = 0;
    let mut i: usize = 0;
    while i < n
        invariant
            n == orders@.len(),
            i <= n,
            d_yes == yes_demand(orders@.subrange(0, i as int)),
            d_no == no_demand(orders@.subrange(0, i as int)),
        decreases n - i,
    {
        proof {
            lemma_step_props();
            assert(orders@.subrange(0, i + 1) =~= orders@.subrange(0, i as int).push(orders@[i as int]));
            lemma_fold_push(orders@.subrange(0, i as int), yes_step(), orders@[i as int]);
            lemma_fold_push(orders@.subrange(0, i as int), no_step(), orders@[i as int]);
        }
        let o = orders[i];
        match o.side {
            Side::Yes => {
                d_yes = match d_yes.checked_add(o.amount) {
                    Some(v) => v,
                    None => {
                        proof {
                            lemma_overflow_means_unfit(orders@, i as int, yes_reserves, no_reserves);
                        }
                        return Err(MarketError::Overflow);
                    },
                };
            },
            Side::No => {
                d_no = match d_no.checked_add(o.amount) {
                    Some(v) => v,
                    None => {
                        proof {
                            lemma_overflow_means_unfit(orders@, i as int, yes_reserves, no_reserves);
                        }
                        return Err(MarketError::Overflow);
                    },
                };
            },
        }
        i = i + 1;
    }
    proof {
        assert(orders@.subrange(0, n as int) =~= orders@);
        lemma_price_bounded(yes_demand(orders@), no_demand(orders@));
    }

    let clearing_price: u64 = if d_yes > 0 && d_no > 0 {
        let num: u128 = (d_no as u128) * (PRICE_SCALE as u128);
        let den: u128 = (d_yes as u128) + (d_no as u128);
        (num / den) as u64
    } else {
        HALF_PRICE
    };

    let total_yes_filled: u64 = if clearing_price < HALF_PRICE {
        d_yes
    } else {
        d_yes / 2
    };
    let total_no_filled: u64 = if clearing_price > HALF_PRICE {
        d_no
    } else {
        d_no / 2
    };

    let new_yes_reserves = match yes_reserves.checked_add(total_no_filled) {
        Some(v) => v,
        None => {
            return Err(MarketError::Overflow);
        },
    };
    let new_no_reserves = match no_reserves.checked_add(total_yes_filled) {
        Some(v) => v,
        None => {
            return Err(MarketError::Overflow);
        },
    };

    Ok(BatchClearResult {
        clearing_price,
        total_yes_filled,
        total_no_filled,
        new_yes_reserves,
        new_no_reserves,
    })
}

/// If adding the next order's amount to either running demand total would
/// overflow, the batch as a whole does not fit.
proof fn lemma_overflow_means_unfit(
    orders: Seq<BatchOrder>,
    i: int,
    yes_reserves: u64,
    no_reserves: u64,
)
    requires
        0 <= i < orders.len(),
        yes_demand(orders.subrange(0, i).push(orders[i])) > u64::MAX || no_demand(
            orders.subrange(0, i).push(orders[i]),
        ) > u64::MAX,
    ensures
        !batch_clear_fits(orders, yes_reserves, no_reserves),
{
    lemma_step_props();
    assert(orders.subrange(0, i).push(orders[i]) =~= orders.subrange(0, i + 1));
    lemma_fold_split(orders, yes_step(), i + 1);
    lemma_fold_split(orders, no_step(), i + 1);
    lemma_fold_nonneg(orders.subrange(i + 1, orders.len() as int), yes_step());
    lemma_fold_nonneg(orders.subrange(i + 1, orders.len() as int), no_step());
}

} // verus!
