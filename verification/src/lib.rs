//! Fee-and-reward computation engine for trade settlement.
//!
//! For every fill the engine computes the fee charged to the taker, the
//! rebate paid to the maker, the reward paid to the relayer ("filler") that
//! submitted the fill, and the split between a referrer and the referred
//! trader.  Three liquidity paths exist — fills against the exchange's own
//! automated market maker, fills matched between two resting orders, and
//! fills routed through an external venue — each with its own fee topology.
//!
//! Every arithmetic step is overflow-checked; any overflow, underflow,
//! division by zero or lossy cast aborts the whole computation with
//! [`error::ErrorCode::MathError`], so a caller never applies a partial
//! result.

pub mod casting;
pub mod constants;
pub mod error;
pub mod fees;
pub mod helpers;
pub mod laws;
pub mod paused_operations;
pub mod roots;
pub mod state;
