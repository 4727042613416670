//! Depositing liquidity over a tick range.

use crate::errors::ErrorCode;
use crate::state::{Pool, Position, Tick};
use vstd::prelude::*;

verus! {

/// Why a deposit of `liquidity_delta` over `[lower_tick, upper_tick)` is
/// refused, if it is: the range is empty or reversed, or one of the three
/// sums leaves the range of its field.
pub open spec fn deposit_error(
    pool: Pool,
    lower: Tick,
    upper: Tick,
    liquidity_delta: u128,
    lower_tick: i32,
    upper_tick: i32,
) -> Option<ErrorCode> {
    if lower_tick >= upper_tick {
        Some(ErrorCode::InvalidTickRange)
    } else if (pool.in_range(lower_tick, upper_tick) && pool.liquidity + liquidity_delta
        > u128::MAX) || lower.liquidity_net + liquidity_delta > i128::MAX || upper.liquidity_net
        - liquidity_delta < i128::MIN {
        Some(ErrorCode::Overflow)
    } else {
        None
    }
}

/// The pool after a deposit that was accepted: the liquidity becomes active
/// only where the current tick lies in the range.
pub open spec fn pool_after_deposit(
    pool: Pool,
    liquidity_delta: u128,
    lower_tick: i32,
    upper_tick: i32,
) -> Pool {
    if pool.in_range(lower_tick, upper_tick) {
        Pool { liquidity: (pool.liquidity + liquidity_delta) as u128, ..pool }
    } else {
        pool
    }
}

/// Books a deposit of `liquidity_delta` by `owner` over
/// `[lower_tick, upper_tick)`.
///
/// On success the position is returned, the pool's liquidity grows by the
/// delta if and only if its current tick lies in the range, the lower tick's
/// net liquidity grows by the delta and the upper tick's falls by it, so the
/// two changes cancel. On failure nothing is changed.
pub fn add_liquidity(
    pool: &mut Pool,
    lower_tick_account: &mut Tick,
    upper_tick_account: &mut Tick,
    owner: [u8; 32],
    liquidity_delta: u128,
    lower_tick: i32,
    upper_tick: i32,
) -> (r: Result<Position, ErrorCode>)
    ensures
        match r {
            Ok(position) => {
                &&& deposit_error(
                    *old(pool),
                    *old(lower_tick_account),
                    *old(upper_tick_account),
                    liquidity_delta,
                    lower_tick,
                    upper_tick,
                ) is None
                &&& position == (Position { owner, liquidity_delta, lower_tick, upper_tick })
                &&& *final(pool) == pool_after_deposit(
                    *old(pool),
                    liquidity_delta,
                    lower_tick,
                    upper_tick,
                )
                &&& final(lower_tick_account).tick_index == lower_tick
                &&& final(lower_tick_account).liquidity_net
                    == old(lower_tick_account).liquidity_net + liquidity_delta
                &&& final(upper_tick_account).tick_index == upper_tick
                &&& final(upper_tick_account).liquidity_net
                    == old(upper_tick_account).liquidity_net - liquidity_delta
            },
            Err(e) => {
                &&& deposit_error(
                    *old(pool),
                    *old(lower_tick_account),
                    *old(upper_tick_account),
                    liquidity_delta,
                    lower_tick,
                    upper_tick,
                ) == Some(e)
                &&& *final(pool) == *old(pool)
                &&& *final(lower_tick_account) == *old(lower_tick_account)
                &&& *final(upper_tick_account) == *old(upper_tick_account)
            },
        },
        lower_tick >= upper_tick ==> r is Err && r->Err_0 == ErrorCode::InvalidTickRange,
        final(pool).sqrt_price_x64 == old(pool).sqrt_price_x64,
        final(pool).current_tick == old(pool).current_tick,
        r is Ok && old(pool).in_range(lower_tick, upper_tick) ==> final(pool).liquidity
            == old(pool).liquidity + liquidity_delta,
        r is Err || !old(pool).in_range(lower_tick, upper_tick) ==> final(pool).liquidity
            == old(pool).liquidity,
        (final(lower_tick_account).liquidity_net - old(lower_tick_account).liquidity_net)
            + (final(upper_tick_account).liquidity_net - old(upper_tick_account).liquidity_net)
            == 0,
{
    if lower_tick >= upper_tick {
        return Err(ErrorCode::InvalidTickRange);
    }
    let active = pool.current_tick >= lower_tick && pool.current_tick < upper_tick;
    let liquidity = if active {
        match pool.liquidity.checked_add(liquidity_delta) {
            Some(v) => v,
            None => { return Err(ErrorCode::Overflow); },
        }
    } else {
        pool.liquidity
    };
    let lower_net = match lower_tick_account.liquidity_net.checked_add_unsigned(liquidity_delta) {
        Some(v) => v,
        None => { return Err(ErrorCode::Overflow); },
    };
    let upper_net = match upper_tick_account.liquidity_net.checked_sub_unsigned(liquidity_delta) {
        Some(v) => v,
        None => { return Err(ErrorCode::Overflow); },
    };
    pool.liquidity = liquidity;
    lower_tick_account.tick_index = lower_tick;
    lower_tick_account.liquidity_net = lower_net;
    upper_tick_account.tick_index = upper_tick;
    upper_tick_account.liquidity_net = upper_net;
    Ok(Position { owner, liquidity_delta, lower_tick, upper_tick })
}

} // verus!
