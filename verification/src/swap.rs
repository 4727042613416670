//! The swap entry point: one pricing step on a pool, with the fee credited
//! to the collector.

use crate::errors::ErrorCode;
use crate::math::{
    amount_after_fee, compute_swap_step, lemma_swap_step_properties, swap_step,
};
use crate::state::{FeeCollector, Pool};
use vstd::prelude::*;

verus! {

/// What a swap returns: the input consumed, the output and the fee, or the
/// error of the pricing step, or `Overflow` where the collector cannot hold
/// the new total.
pub open spec fn swap_outcome(
    pool: Pool,
    collector: FeeCollector,
    amount_in: u64,
    zero_for_one: bool,
) -> Result<(u64, u64, u64), ErrorCode> {
    match swap_step(pool.sqrt_price_x64, pool.liquidity, amount_in, zero_for_one) {
        Ok((next, consumed, out, fee)) => {
            if collector.fees + fee > u64::MAX {
                Err(ErrorCode::Overflow)
            } else {
                Ok((consumed, out, fee))
            }
        },
        Err(e) => Err(e),
    }
}

/// The price that a pricing step on the pool arrives at, where it succeeds.
pub open spec fn price_after_swap(pool: Pool, amount_in: u64, zero_for_one: bool) -> u128 {
    match swap_step(pool.sqrt_price_x64, pool.liquidity, amount_in, zero_for_one) {
        Ok((next, consumed, out, fee)) => next,
        Err(e) => pool.sqrt_price_x64,
    }
}

/// Swaps `amount_in` of token0 for token1 (`zero_for_one`) or the reverse.
///
/// On success the pool's price is the one the step arrived at, its tick and
/// liquidity are as before, and the collector has grown by the fee. On
/// failure, which on a pool without liquidity is always `ZeroLiquidity`,
/// neither the pool nor the collector is changed.
pub fn swap(
    pool: &mut Pool,
    fee_collector: &mut FeeCollector,
    amount_in: u64,
    zero_for_one: bool,
) -> (r: Result<(u64, u64, u64), ErrorCode>)
    ensures
        r == swap_outcome(*old(pool), *old(fee_collector), amount_in, zero_for_one),
        match r {
            Ok((consumed, out, fee)) => {
                &&& consumed == amount_in
                &&& fee + amount_after_fee(amount_in as int) == amount_in
                &&& final(pool).sqrt_price_x64 == price_after_swap(
                    *old(pool),
                    amount_in,
                    zero_for_one,
                )
                &&& final(fee_collector).fees == old(fee_collector).fees + fee
                &&& zero_for_one ==> final(pool).sqrt_price_x64 <= old(pool).sqrt_price_x64
                &&& !zero_for_one ==> final(pool).sqrt_price_x64 >= old(pool).sqrt_price_x64
            },
            Err(e) => {
                &&& *final(pool) == *old(pool)
                &&& *final(fee_collector) == *old(fee_collector)
            },
        },
        old(pool).liquidity == 0 ==> r is Err && r->Err_0 == ErrorCode::ZeroLiquidity,
        final(pool).current_tick == old(pool).current_tick,
        final(pool).liquidity == old(pool).liquidity,
        final(fee_collector).fees >= old(fee_collector).fees,
{
    proof {
        lemma_swap_step_properties(pool.sqrt_price_x64, pool.liquidity, amount_in, zero_for_one);
    }
    let (new_sqrt_price, amount_in_consumed, amount_out, fee_amount) = match compute_swap_step(
        pool.sqrt_price_x64,
        pool.liquidity,
        amount_in,
        zero_for_one,
    ) {
        Ok(step) => step,
        Err(e) => { return Err(e); },
    };
    let fees = match fee_collector.fees.checked_add(fee_amount) {
        Some(v) => v,
        None => { return Err(ErrorCode::Overflow); },
    };
    pool.sqrt_price_x64 = new_sqrt_price;
    fee_collector.fees = fees;
    Ok((amount_in_consumed, amount_out, fee_amount))
}

} // verus!
