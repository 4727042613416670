use vstd::prelude::*;

verus! {

/// The mutable state of one market.
#[derive(Clone, Copy, Debug, PartialEq, Eq, Structural)]
pub struct Pool {
    /// Square root of the token1/token0 rate, as a Q64.64 fixed-point number.
    pub sqrt_price_x64: u128,
    /// The tick the price currently lies in.
    pub current_tick: i32,
    /// Liquidity of all positions whose range holds the current tick.
    pub liquidity: u128,
}

/// A boundary on the price axis.
#[derive(Clone, Copy, Debug, PartialEq, Eq, Structural)]
pub struct Tick {
    pub tick_index: i32,
    /// Signed change of the active liquidity when the price crosses this tick
    /// upwards.
    pub liquidity_net: i128,
}

/// What one provider deposited by one call.
#[derive(Clone, Copy, Debug, PartialEq, Eq)]
pub struct Position {
    /// Identity of the provider; stored, never interpreted.
    pub owner: [u8; 32],
    pub liquidity_delta: u128,
    pub lower_tick: i32,
    pub upper_tick: i32,
}

/// Running total of the fees taken by swaps.
#[derive(Clone, Copy, Debug, PartialEq, Eq, Structural)]
pub struct FeeCollector {
    pub fees: u64,
}

impl Pool {
    /// Whether a position over `[lower_tick, upper_tick)` is active at the
    /// pool's current tick.
    pub open spec fn in_range(self, lower_tick: i32, upper_tick: i32) -> bool {
        lower_tick <= self.current_tick < upper_tick
    }
}

} // verus!
