//! Overflow-checked scaled proportion.

use crate::error::{ClearingHouseResult, ErrorCode};
use vstd::prelude::*;

verus! {

/// `floor(value * numerator / denominator)` over the mathematical integers.
pub open spec fn spec_proportion(value: int, numerator: int, denominator: int) -> int
    recommends
        denominator != 0,
{
    value * numerator / denominator
}

/// The proportion is computable in `u128`: the denominator is non-zero and
/// the scaled product does not overflow.
pub open spec fn proportion_fits(value: int, numerator: int, denominator: int) -> bool {
    &&& denominator != 0
    &&& value * numerator <= u128::MAX
}

/// `floor(value * numerator / denominator)`, failing with an arithmetic
/// error when the multiply overflows or the denominator is zero.
pub fn get_proportion_u128(value: u128, numerator: u128, denominator: u128) -> (r:
    ClearingHouseResult<u128>)
    ensures
        r is Ok <==> proportion_fits(value as int, numerator as int, denominator as int),
        r is Ok ==> r->Ok_0 == spec_proportion(value as int, numerator as int, denominator as int),
        r is Err ==> r->Err_0 == ErrorCode::MathError,
{
    let scaled = value.checked_mul(numerator).ok_or(ErrorCode::MathError)?;
    let result = scaled.checked_div(denominator).ok_or(ErrorCode::MathError)?;
    Ok(result)
}

} // verus!
