//! Shared fixed-point constants.

use vstd::prelude::*;

verus! {

/// One whole quote unit in the shared fixed-point representation.
pub const QUOTE_PRECISION: u128 = 1_000_000;

} // verus!
