//! Fresh records: a pool at a given price, a tick without liquidity, an
//! empty fee collector.

use crate::state::{FeeCollector, Pool, Tick};
use vstd::prelude::*;

verus! {

/// A pool at the given price and tick, with no liquidity yet.
pub fn initialize_pool(sqrt_price_x64: u128, current_tick: i32) -> (pool: Pool)
    ensures
        pool == (Pool { sqrt_price_x64, current_tick, liquidity: 0 }),
{
    Pool { sqrt_price_x64, current_tick, liquidity: 0 }
}

/// The record of a tick that no position borders on yet.
pub fn initialize_tick(tick_index: i32) -> (tick: Tick)
    ensures
        tick == (Tick { tick_index, liquidity_net: 0 }),
{
    Tick { tick_index, liquidity_net: 0 }
}

/// A collector that has taken no fee yet.
pub fn initialize_fee_collector() -> (collector: FeeCollector)
    ensures
        collector == (FeeCollector { fees: 0 }),
{
    FeeCollector { fees: 0 }
}

/// Creates a pool and initializes it in one call.
pub fn create_pool(sqrt_price_x64: u128, current_tick: i32) -> (pool: Pool)
    ensures
        pool == (Pool { sqrt_price_x64, current_tick, liquidity: 0 }),
{
    initialize_pool(sqrt_price_x64, current_tick)
}

/// Creates a tick and initializes it in one call.
pub fn create_tick(tick_index: i32) -> (tick: Tick)
    ensures
        tick == (Tick { tick_index, liquidity_net: 0 }),
{
    initialize_tick(tick_index)
}

} // verus!
