//! The engine's single error kind.

use vstd::prelude::*;

verus! {

/// Every failure of the engine is an arithmetic error: a checked add,
/// subtract, multiply or divide would overflow, underflow or divide by
/// zero, or a numeric cast would lose information.
#[derive(Clone, Copy, Debug, PartialEq, Eq, Structural)]
pub enum ErrorCode {
    MathError,
}

/// Result type of every fallible computation of the engine.
pub type ClearingHouseResult<T> = Result<T, ErrorCode>;

} // verus!
