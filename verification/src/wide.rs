//! 256-bit unsigned integers for the intermediate products of the price
//! formulas. The arithmetic itself is done by `primitive_types::U256`; this
//! module gives its values a mathematical reading.

use primitive_types::U256;
use vstd::arithmetic::power2::pow2;
use vstd::prelude::*;

verus! {

/// 2^64.
pub open spec fn two_pow_64() -> int {
    0x1_0000_0000_0000_0000int
}

/// 2^128.
pub open spec fn two_pow_128() -> int {
    0x1_0000_0000_0000_0000_0000_0000_0000_0000int
}

/// 2^192.
pub open spec fn two_pow_192() -> int {
    0x1_0000_0000_0000_0000_0000_0000_0000_0000_0000_0000_0000_0000int
}

/// 2^256, the first number that a `Wide` cannot hold.
pub open spec fn two_pow_256() -> int {
    0x1_0000_0000_0000_0000_0000_0000_0000_0000_0000_0000_0000_0000_0000_0000_0000_0000int
}

/// An unsigned 256-bit integer as four 64-bit words, least significant first:
/// the layout of `primitive_types::U256`.
#[derive(Clone, Copy, Debug)]
pub struct Wide {
    pub words: [u64; 4],
}

impl Wide {
    /// The number that the four words stand for.
    pub open spec fn view(&self) -> int {
        self.words[0] + self.words[1] * two_pow_64() + self.words[2] * two_pow_128()
            + self.words[3] * two_pow_192()
    }

    /// Whether the number can be held in 128 bits.
    pub fn fits_u128(&self) -> (r: bool)
        ensures
            r == (self@ <= u128::MAX),
    {
        self.words[2] == 0 && self.words[3] == 0
    }
}

/// `U256::from` on a `u128`: the 256-bit integer of the same value.
#[verifier::external_body]
pub(crate) fn wide_from_u128(x: u128) -> (r: Wide)
    ensures
        r@ == x,
{
    Wide { words: U256::from(x).0 }
}

/// `U256::as_u128`: the value unchanged, where it has 128 bits at most. The
/// outside function panics on larger ones, which `requires` leaves out.
#[verifier::external_body]
pub(crate) fn wide_as_u128(a: Wide) -> (r: u128)
    requires
        a@ <= u128::MAX,
    ensures
        r == a@,
{
    U256(a.words).as_u128()
}

/// `U256`'s `<<` with a `u32` shift: the bits move up by `n` places and those
/// that leave the 256 are lost, so the result is `a * 2^n` modulo 2^256.
#[verifier::external_body]
pub(crate) fn wide_shl(a: Wide, n: u32) -> (r: Wide)
    ensures
        r@ == (a@ * pow2(n as nat)) % two_pow_256(),
{
    Wide { words: (U256(a.words) << n).0 }
}

/// `U256::checked_add`: the sum, or `None` where it needs more than 256 bits.
#[verifier::external_body]
pub(crate) fn wide_checked_add(a: Wide, b: Wide) -> (r: Option<Wide>)
    ensures
        r.is_some() <==> a@ + b@ < two_pow_256(),
        r.is_some() ==> r.unwrap()@ == a@ + b@,
{
    match U256(a.words).checked_add(U256(b.words)) {
        Some(v) => Some(Wide { words: v.0 }),
        None => None,
    }
}

/// `U256::checked_mul`: the product, or `None` where it needs more than 256
/// bits.
#[verifier::external_body]
pub(crate) fn wide_checked_mul(a: Wide, b: Wide) -> (r: Option<Wide>)
    ensures
        r.is_some() <==> a@ * b@ < two_pow_256(),
        r.is_some() ==> r.unwrap()@ == a@ * b@,
{
    match U256(a.words).checked_mul(U256(b.words)) {
        Some(v) => Some(Wide { words: v.0 }),
        None => None,
    }
}

/// `U256::checked_div`: the quotient rounded down, or `None` where the
/// divisor is zero.
#[verifier::external_body]
pub(crate) fn wide_checked_div(a: Wide, b: Wide) -> (r: Option<Wide>)
    ensures
        r.is_some() <==> b@ != 0,
        r.is_some() ==> r.unwrap()@ == a@ / b@,
{
    match U256(a.words).checked_div(U256(b.words)) {
        Some(v) => Some(Wide { words: v.0 }),
        None => None,
    }
}

} // verus!
