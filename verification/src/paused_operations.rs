//! Operation pause flags, packed as bits of a `u8` status word.

use vstd::prelude::*;

verus! {

/// An operation of the exchange that governance can pause.  Each variant
/// owns one bit of the packed status word.
#[derive(Clone, Copy, Debug, PartialEq, Eq, Structural)]
pub enum PausedOperations {
    /// Funding rate updates are paused.
    Funding,
    /// AMM fills are prevented/blocked.
    AmmFills,
    /// Fills are blocked.
    Fill,
    /// Perp: pause settling negative pnl | spot: pause depositing asset.
    Withdraw,
}

impl PausedOperations {
    /// The bit this operation owns in the packed status word.
    pub open spec fn spec_mask(self) -> u8 {
        match self {
            PausedOperations::Funding => 1,
            PausedOperations::AmmFills => 2,
            PausedOperations::Fill => 4,
            PausedOperations::Withdraw => 8,
        }
    }

    /// Returns the operation's bit mask.
    pub fn mask(self) -> (r: u8)
        ensures
            r == self.spec_mask(),
    {
        match self {
            PausedOperations::Funding => 1,
            PausedOperations::AmmFills => 2,
            PausedOperations::Fill => 4,
            PausedOperations::Withdraw => 8,
        }
    }

    /// Whether `operation` is flagged as paused in the packed status word
    /// `current`.
    pub fn is_operation_paused(current: u8, operation: PausedOperations) -> (r: bool)
        ensures
            r == ((current & operation.spec_mask()) != 0),
    {
        current & operation.mask() != 0
    }
}

} // verus!
