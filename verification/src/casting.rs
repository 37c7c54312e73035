//! Lossless numeric conversions.
//!
//! A cast that would change the value fails with an arithmetic error —
//! no truncation is ever silent.

use crate::error::{ClearingHouseResult, ErrorCode};
use vstd::prelude::*;

verus! {

/// Converts a signed value to `u128`; fails on negative input.
pub fn cast_to_u128(value: i128) -> (r: ClearingHouseResult<u128>)
    ensures
        r is Ok <==> value >= 0,
        r is Ok ==> r->Ok_0 == value,
        r is Err ==> r->Err_0 == ErrorCode::MathError,
{
    if value >= 0 {
        Ok(value as u128)
    } else {
        Err(ErrorCode::MathError)
    }
}

/// Converts an unsigned value to `i128`; fails when it is out of range.
pub fn cast_to_i128(value: u128) -> (r: ClearingHouseResult<i128>)
    ensures
        r is Ok <==> value <= i128::MAX,
        r is Ok ==> r->Ok_0 == value,
        r is Err ==> r->Err_0 == ErrorCode::MathError,
{
    if value <= 0x7fff_ffff_ffff_ffff_ffff_ffff_ffff_ffff {
        Ok(value as i128)
    } else {
        Err(ErrorCode::MathError)
    }
}

} // verus!
