use vstd::prelude::*;

verus! {

/// Why an operation on a pool was refused.
#[derive(Clone, Copy, Debug, PartialEq, Eq, Structural)]
pub enum ErrorCode {
    /// The lower tick of a range is not below its upper tick.
    InvalidTickRange,
    /// A result does not fit the integer that has to hold it.
    Overflow,
    /// A swap was asked of a pool without active liquidity.
    ZeroLiquidity,
}

} // verus!
