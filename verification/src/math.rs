//! The single-step swap formula on Q64.64 square-root prices.
//!
//! The spec functions give the formula over unbounded integers; the
//! executable step computes it with checked machine arithmetic and 256-bit
//! intermediates and reports `Overflow` wherever a value leaves its integer.

use crate::errors::ErrorCode;
use crate::wide::{
    two_pow_256, two_pow_64, wide_as_u128, wide_checked_add, wide_checked_div, wide_checked_mul,
    wide_from_u128, wide_shl, Wide,
};
use vstd::arithmetic::div_mod::{
    lemma_div_is_ordered, lemma_div_multiples_vanish, lemma_div_nonincreasing,
    lemma_div_pos_is_pos, lemma_fundamental_div_mod,
};
use vstd::arithmetic::power2::{lemma2_to64, pow2};
use vstd::prelude::*;

verus! {

/// Ten-thousandths of the input that reach the curve: the fee is 0.30%.
pub const FEE_NUMERATOR: u64 = 9970;

pub const FEE_DENOMINATOR: u64 = 10000;

/// Fractional bits of a square-root price.
pub const PRICE_SHIFT: u32 = 64;

/// The part of `amount_in` that moves the price.
pub open spec fn amount_after_fee(amount_in: int) -> int {
    amount_in * FEE_NUMERATOR as int / FEE_DENOMINATOR as int
}

/// The part of `amount_in` that is set aside as fee.
pub open spec fn fee_on(amount_in: int) -> int {
    amount_in - amount_after_fee(amount_in)
}

/// Square-root price after `amount` of token0 is sold into `liquidity`:
/// `L·2^64·P / (L·2^64 + amount·P)`, rounded down.
pub open spec fn sqrt_price_after_token0(sqrt_price: int, liquidity: int, amount: int) -> int {
    (liquidity * two_pow_64() * sqrt_price) / (liquidity * two_pow_64() + amount * sqrt_price)
}

/// Square-root price after `amount` of token1 is sold into `liquidity`:
/// `P + amount·2^64 / L`, the quotient rounded down.
pub open spec fn sqrt_price_after_token1(sqrt_price: int, liquidity: int, amount: int) -> int {
    sqrt_price + (amount * two_pow_64()) / liquidity
}

/// Square-root price after a swap of `amount` (net of fee) in the given
/// direction.
pub open spec fn next_sqrt_price(
    sqrt_price: int,
    liquidity: int,
    amount: int,
    zero_for_one: bool,
) -> int {
    if zero_for_one {
        sqrt_price_after_token0(sqrt_price, liquidity, amount)
    } else {
        sqrt_price_after_token1(sqrt_price, liquidity, amount)
    }
}

/// How far the price went in the direction of the swap: down when token0 is
/// sold, up when token1 is sold.
pub open spec fn price_move(sqrt_price: int, next: int, zero_for_one: bool) -> int {
    if zero_for_one {
        sqrt_price - next
    } else {
        next - sqrt_price
    }
}

/// Amount of the other token that a price move releases: `L·move / 2^64`,
/// rounded down.
pub open spec fn amount_out_for(liquidity: int, moved: int) -> int {
    liquidity * moved / two_pow_64()
}

/// Whether a step on a pool with liquidity leaves the range of one of the
/// integers that carry it: the 64-bit product of the fee computation, the
/// 256-bit numerator of the falling price, the 128-bit price, or the 128-bit
/// product behind the output amount.
pub open spec fn step_overflows(
    sqrt_price: u128,
    liquidity: u128,
    amount_in: u64,
    zero_for_one: bool,
) -> bool {
    let amount = amount_after_fee(amount_in as int);
    let next = next_sqrt_price(sqrt_price as int, liquidity as int, amount, zero_for_one);
    let moved = price_move(sqrt_price as int, next, zero_for_one);
    ||| amount_in * FEE_NUMERATOR > u64::MAX
    ||| (zero_for_one && liquidity * two_pow_64() * sqrt_price >= two_pow_256())
    ||| next > u128::MAX
    ||| liquidity * moved > u128::MAX
}

/// What one swap step returns: the new square-root price, the input consumed
/// (always all of it), the output amount and the fee.
pub open spec fn swap_step(
    sqrt_price: u128,
    liquidity: u128,
    amount_in: u64,
    zero_for_one: bool,
) -> Result<(u128, u64, u64, u64), ErrorCode> {
    if liquidity == 0 {
        Err(ErrorCode::ZeroLiquidity)
    } else if step_overflows(sqrt_price, liquidity, amount_in, zero_for_one) {
        Err(ErrorCode::Overflow)
    } else {
        let amount = amount_after_fee(amount_in as int);
        let next = next_sqrt_price(sqrt_price as int, liquidity as int, amount, zero_for_one);
        let moved = price_move(sqrt_price as int, next, zero_for_one);
        Ok(
            (
                next as u128,
                amount_in,
                amount_out_for(liquidity as int, moved) as u64,
                fee_on(amount_in as int) as u64,
            ),
        )
    }
}

/// The fee and the rest make up the input exactly, and the fee is 0.3% of the
/// input rounded up: less than one unit above three thousandths.
pub proof fn lemma_fee_conservation(amount_in: int)
    requires
        0 <= amount_in,
    ensures
        fee_on(amount_in) + amount_after_fee(amount_in) == amount_in,
        0 <= amount_after_fee(amount_in) <= amount_in,
        0 <= fee_on(amount_in) <= amount_in,
        30 * amount_in <= 10000 * fee_on(amount_in) < 30 * amount_in + 10000,
{
}

/// A product of a 64-bit and a 128-bit number has 192 bits at most.
proof fn lemma_product_below_192(a: int, p: int)
    by (nonlinear_arith)
    requires
        0 <= a < 0x1_0000_0000_0000_0000int,
        0 <= p < 0x1_0000_0000_0000_0000_0000_0000_0000_0000int,
    ensures
        0 <= a * p < 0x1_0000_0000_0000_0000_0000_0000_0000_0000_0000_0000_0000_0000int,
{
    assert(a * p <= 0xFFFF_FFFF_FFFF_FFFFint * p);
    assert(0xFFFF_FFFF_FFFF_FFFFint * p <= 0xFFFF_FFFF_FFFF_FFFFint
        * 0xFFFF_FFFF_FFFF_FFFF_FFFF_FFFF_FFFF_FFFFint);
}

/// Selling token0 never raises the price: with a base `b` and an addition
/// `e` to the divisor, neither negative and not both zero, `b·p / (b + e)`
/// is between 0 and `p`.
pub proof fn lemma_quotient_at_most_price(b: int, p: int, e: int)
    requires
        0 <= b,
        0 <= p,
        0 <= e,
        0 < b + e,
    ensures
        0 <= (b * p) / (b + e) <= p,
{
    let d = b + e;
    assert(0 <= b * p <= d * p) by (nonlinear_arith)
        requires
            0 <= b,
            0 <= p,
            0 <= e,
            d == b + e,
    ;
    lemma_div_pos_is_pos(b * p, d);
    lemma_div_is_ordered(b * p, d * p, d);
    lemma_div_multiples_vanish(p, d);
}

/// With liquidity in the pool the price moves in the direction of the swap
/// or stays: it does not rise when token0 is sold and does not fall when
/// token1 is sold.
pub proof fn lemma_price_moves_with_direction(
    sqrt_price: int,
    liquidity: int,
    amount: int,
    zero_for_one: bool,
)
    requires
        0 <= sqrt_price,
        0 < liquidity,
        0 <= amount,
    ensures
        zero_for_one ==> 0 <= next_sqrt_price(sqrt_price, liquidity, amount, zero_for_one)
            <= sqrt_price,
        !zero_for_one ==> next_sqrt_price(sqrt_price, liquidity, amount, zero_for_one)
            >= sqrt_price,
        price_move(
            sqrt_price,
            next_sqrt_price(sqrt_price, liquidity, amount, zero_for_one),
            zero_for_one,
        ) >= 0,
{
    if zero_for_one {
        let b = liquidity * two_pow_64();
        let e = amount * sqrt_price;
        assert(0 <= e) by (nonlinear_arith)
            requires
                0 <= amount,
                0 <= sqrt_price,
                e == amount * sqrt_price,
        ;
        lemma_quotient_at_most_price(b, sqrt_price, e);
    } else {
        lemma_div_pos_is_pos(amount * two_pow_64(), liquidity);
    }
}

/// A successful step moves the price in the direction of the swap, consumes
/// the whole input, and splits it into fee and rest without loss.
pub proof fn lemma_swap_step_properties(
    sqrt_price: u128,
    liquidity: u128,
    amount_in: u64,
    zero_for_one: bool,
)
    ensures
        liquidity == 0 ==> swap_step(sqrt_price, liquidity, amount_in, zero_for_one) == Err::<
            (u128, u64, u64, u64),
            ErrorCode,
        >(ErrorCode::ZeroLiquidity),
        match swap_step(sqrt_price, liquidity, amount_in, zero_for_one) {
            Ok((next, consumed, out, fee)) => {
                &&& liquidity > 0
                &&& zero_for_one ==> next <= sqrt_price
                &&& !zero_for_one ==> next >= sqrt_price
                &&& consumed == amount_in
                &&& fee + amount_after_fee(amount_in as int) == amount_in
                &&& 30 * amount_in <= 10000 * fee < 30 * amount_in + 10000
            },
            Err(e) => e != ErrorCode::InvalidTickRange,
        },
{
    lemma_fee_conservation(amount_in as int);
    if liquidity > 0 {
        lemma_price_moves_with_direction(
            sqrt_price as int,
            liquidity as int,
            amount_after_fee(amount_in as int),
            zero_for_one,
        );
    }
}

/// Selling token1 cannot overflow the output: the amount released is at most
/// the amount that went in, so only the price itself can leave its range.
pub proof fn lemma_token1_step_output_bounded(sqrt_price: int, liquidity: int, amount: int)
    requires
        0 <= sqrt_price,
        0 < liquidity,
        0 <= amount,
    ensures
        ({
            let next = sqrt_price_after_token1(sqrt_price, liquidity, amount);
            let moved = price_move(sqrt_price, next, false);
            &&& 0 <= liquidity * moved <= amount * two_pow_64()
            &&& 0 <= amount_out_for(liquidity, moved) <= amount
        }),
{
    let x = amount * two_pow_64();
    let q = x / liquidity;
    lemma_fundamental_div_mod(x, liquidity);
    lemma_div_pos_is_pos(x, liquidity);
    assert(0 <= x % liquidity < liquidity);
    assert(0 <= liquidity * q) by (nonlinear_arith)
        requires
            0 < liquidity,
            0 <= q,
    ;
    lemma_div_pos_is_pos(liquidity * q, two_pow_64());
    lemma_div_is_ordered(liquidity * q, x, two_pow_64());
}

/// The part of `amount_in` that remains after the fee, or `None` where the
/// product of the input and the fee numerator does not fit 64 bits.
pub fn net_of_fee(amount_in: u64) -> (r: Option<u64>)
    ensures
        r.is_some() <==> amount_in * FEE_NUMERATOR <= u64::MAX,
        r.is_some() ==> r.unwrap() == amount_after_fee(amount_in as int),
{
    match amount_in.checked_mul(FEE_NUMERATOR) {
        Some(scaled) => Some(scaled / FEE_DENOMINATOR),
        None => None,
    }
}

/// `L·move >> 64`, or `None` where the product does not fit 128 bits. The
/// shifted product always fits 64.
pub fn amount_out(liquidity: u128, moved: u128) -> (r: Option<u64>)
    ensures
        r.is_some() <==> liquidity * moved <= u128::MAX,
        r.is_some() ==> r.unwrap() == amount_out_for(liquidity as int, moved as int),
{
    match liquidity.checked_mul(moved) {
        Some(product) => {
            let shifted: u128 = product >> PRICE_SHIFT;
            assert(product >> 64u32 == product / 0x1_0000_0000_0000_0000u128 && product >> 64u32
                <= 0xFFFF_FFFF_FFFF_FFFFu128) by (bit_vector);
            Some(shifted as u64)
        },
        None => None,
    }
}

/// The price after `amount` of token0 is sold, or `None` where the product
/// `L·2^64·P` needs more than 256 bits or the divisor is zero, which takes a
/// pool without liquidity.
pub fn sqrt_price_down(sqrt_price: u128, liquidity: u128, amount: u64) -> (r: Option<u128>)
    ensures
        r.is_some() <==> liquidity * two_pow_64() * sqrt_price < two_pow_256() && liquidity
            * two_pow_64() + amount * sqrt_price > 0,
        r.is_some() ==> r.unwrap() == sqrt_price_after_token0(
            sqrt_price as int,
            liquidity as int,
            amount as int,
        ),
{
    let scaled = scale_by_q64(liquidity);
    let price = wide_from_u128(sqrt_price);
    let pushed = wide_from_u128(amount as u128);
    proof {
        lemma_product_below_192(amount as int, sqrt_price as int);
        if scaled@ + amount * sqrt_price > 0 {
            lemma_quotient_at_most_price(scaled@, sqrt_price as int, amount * sqrt_price);
        }
    }
    let numerator = match wide_checked_mul(scaled, price) {
        Some(v) => v,
        None => { return None; },
    };
    let added = match wide_checked_mul(pushed, price) {
        Some(v) => v,
        None => { return None; },
    };
    let denominator = match wide_checked_add(scaled, added) {
        Some(v) => v,
        None => { return None; },
    };
    let next = match wide_checked_div(numerator, denominator) {
        Some(v) => v,
        None => { return None; },
    };
    if !next.fits_u128() {
        return None;
    }
    Some(wide_as_u128(next))
}

/// The price after `amount` of token1 is sold, or `None` where it does not
/// fit 128 bits or the pool has no liquidity to divide by.
pub fn sqrt_price_up(sqrt_price: u128, liquidity: u128, amount: u64) -> (r: Option<u128>)
    ensures
        r.is_some() <==> liquidity > 0 && sqrt_price_after_token1(
            sqrt_price as int,
            liquidity as int,
            amount as int,
        ) <= u128::MAX,
        r.is_some() ==> r.unwrap() == sqrt_price_after_token1(
            sqrt_price as int,
            liquidity as int,
            amount as int,
        ),
{
    let scaled = scale_by_q64(amount as u128);
    let price = wide_from_u128(sqrt_price);
    let depth = wide_from_u128(liquidity);
    proof {
        if liquidity > 0 {
            lemma_div_pos_is_pos(scaled@, liquidity as int);
            lemma_div_nonincreasing(scaled@, liquidity as int);
        }
    }
    let increment = match wide_checked_div(scaled, depth) {
        Some(v) => v,
        None => { return None; },
    };
    let next = match wide_checked_add(price, increment) {
        Some(v) => v,
        None => { return None; },
    };
    if !next.fits_u128() {
        return None;
    }
    Some(wide_as_u128(next))
}

/// `x · 2^64` in 256 bits.
fn scale_by_q64(x: u128) -> (r: Wide)
    ensures
        r@ == x * two_pow_64(),
{
    let wide = wide_from_u128(x);
    proof {
        lemma2_to64();
        assert(wide@ * pow2(64) == x * two_pow_64()) by (nonlinear_arith)
            requires
                wide@ == x,
                pow2(64) == two_pow_64(),
        ;
    }
    wide_shl(wide, PRICE_SHIFT)
}

/// One pricing step within the active liquidity: takes the fee, moves the
/// price along the curve and gives the amount released.
///
/// Fails with `ZeroLiquidity` on a pool without liquidity and with `Overflow`
/// exactly where `step_overflows` says; otherwise returns the new price, the
/// whole input as consumed, the output and the fee.
pub fn compute_swap_step(
    sqrt_price_current: u128,
    liquidity: u128,
    amount_in: u64,
    zero_for_one: bool,
) -> (r: Result<(u128, u64, u64, u64), ErrorCode>)
    ensures
        r == swap_step(sqrt_price_current, liquidity, amount_in, zero_for_one),
{
    if liquidity == 0 {
        return Err(ErrorCode::ZeroLiquidity);
    }
    let amount_in_without_fee = match net_of_fee(amount_in) {
        Some(v) => v,
        None => { return Err(ErrorCode::Overflow); },
    };
    proof {
        lemma_fee_conservation(amount_in as int);
        lemma_price_moves_with_direction(
            sqrt_price_current as int,
            liquidity as int,
            amount_in_without_fee as int,
            zero_for_one,
        );
    }
    let fee_amount = match amount_in.checked_sub(amount_in_without_fee) {
        Some(v) => v,
        None => { return Err(ErrorCode::Overflow); },
    };
    let stepped = if zero_for_one {
        sqrt_price_down(sqrt_price_current, liquidity, amount_in_without_fee)
    } else {
        sqrt_price_up(sqrt_price_current, liquidity, amount_in_without_fee)
    };
    let sqrt_price_next = match stepped {
        Some(v) => v,
        None => { return Err(ErrorCode::Overflow); },
    };
    let moved = if zero_for_one {
        sqrt_price_current.checked_sub(sqrt_price_next)
    } else {
        sqrt_price_next.checked_sub(sqrt_price_current)
    };
    let diff = match moved {
        Some(v) => v,
        None => { return Err(ErrorCode::Overflow); },
    };
    match amount_out(liquidity, diff) {
        Some(out) => Ok((sqrt_price_next, amount_in, out, fee_amount)),
        None => Err(ErrorCode::Overflow),
    }
}

} // verus!
