//! Pricing core of a concentrated-liquidity market maker.
//!
//! A pool keeps the square root of its exchange rate as a Q64.64 fixed-point
//! number together with the liquidity that is active at that price. Liquidity
//! is deposited over a tick range and booked as signed deltas on the two
//! boundary ticks; a swap moves the price along the constant-product curve of
//! the active liquidity in a single step and sets a fee aside.

pub mod errors;
pub mod initialize;
pub mod liquidity;
pub mod math;
pub mod state;
pub mod swap;
pub mod wide;
