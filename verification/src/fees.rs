//! The three fee-topology calculators and their shared building blocks.
//!
//! Each public calculator returns `Ok` exactly when every checked
//! arithmetic step of its formula is computable, and its `ensures` pins
//! every field of the result to the formula; any overflow, underflow,
//! division by zero or lossy cast yields `Err(ErrorCode::MathError)`.

use crate::casting::{cast_to_i128, cast_to_u128};
use crate::error::{ClearingHouseResult, ErrorCode};
use crate::helpers::{get_proportion_u128, proportion_fits, spec_proportion};
use crate::roots::{floor_fourth_root, fourth_root};
use crate::state::{FeeStructure, OrderFillerRewardStructure};
use vstd::prelude::*;

verus! {

/// Result of the AMM and matched-order paths.  Every unsigned field is a
/// magnitude in quote units; the two signed totals may be negative.
#[derive(Clone, Copy, Debug, PartialEq, Eq, Structural)]
pub struct FillFees {
    pub user_fee: u128,
    pub maker_rebate: u128,
    pub fee_to_market: i128,
    pub fee_to_market_for_lp: i128,
    pub filler_reward: u128,
    pub referee_discount: u128,
    pub referrer_reward: u128,
}

/// Result of the external-venue path.
#[derive(Clone, Copy, Debug, PartialEq, Eq, Structural)]
pub struct SerumFillFees {
    pub user_fee: u128,
    pub fee_to_market: u128,
    pub fee_pool_delta: i128,
    pub filler_reward: u128,
}

// ---------------------------------------------------------------------------
// Gross exchange fee
// ---------------------------------------------------------------------------

/// The gross exchange fee on a notional amount: `floor(amount * num / den)`
/// at the configured base rate.
pub open spec fn spec_exchange_fee(quote_asset_amount: int, fee_structure: FeeStructure) -> int {
    spec_proportion(
        quote_asset_amount,
        fee_structure.fee_numerator as int,
        fee_structure.fee_denominator as int,
    )
}

/// The gross exchange fee is computable.
pub open spec fn exchange_fee_fits(quote_asset_amount: int, fee_structure: FeeStructure) -> bool {
    proportion_fits(
        quote_asset_amount,
        fee_structure.fee_numerator as int,
        fee_structure.fee_denominator as int,
    )
}

// ---------------------------------------------------------------------------
// Referral split
// ---------------------------------------------------------------------------

/// The referrer's reward carved from a gross fee.
pub open spec fn spec_referrer_reward(fee: int, fee_structure: FeeStructure) -> int {
    spec_proportion(
        fee,
        fee_structure.referral_discount.referrer_reward_numerator as int,
        fee_structure.referral_discount.referrer_reward_denominator as int,
    )
}

/// The referee's discount carved from a gross fee.
pub open spec fn spec_referee_discount(fee: int, fee_structure: FeeStructure) -> int {
    spec_proportion(
        fee,
        fee_structure.referral_discount.referee_discount_numerator as int,
        fee_structure.referral_discount.referee_discount_denominator as int,
    )
}

/// Both halves of the referral split are computable.
pub open spec fn referral_split_fits(fee: int, fee_structure: FeeStructure) -> bool {
    &&& proportion_fits(
        fee,
        fee_structure.referral_discount.referrer_reward_numerator as int,
        fee_structure.referral_discount.referrer_reward_denominator as int,
    )
    &&& proportion_fits(
        fee,
        fee_structure.referral_discount.referee_discount_numerator as int,
        fee_structure.referral_discount.referee_discount_denominator as int,
    )
}

/// Referrer reward when referral is requested, zero otherwise.
pub open spec fn spec_opt_referrer_reward(
    fee: int,
    fee_structure: FeeStructure,
    reward_referrer: bool,
) -> int {
    if reward_referrer {
        spec_referrer_reward(fee, fee_structure)
    } else {
        0
    }
}

/// Referee discount when referral is requested, zero otherwise.
pub open spec fn spec_opt_referee_discount(
    fee: int,
    fee_structure: FeeStructure,
    reward_referrer: bool,
) -> int {
    if reward_referrer {
        spec_referee_discount(fee, fee_structure)
    } else {
        0
    }
}

/// Splits a referrer reward and a referee discount out of a gross fee,
/// each independently proportional to its own configured ratio.
pub fn calculate_referrer_reward_and_referee_discount(
    fee: u128,
    fee_structure: &FeeStructure,
) -> (r: ClearingHouseResult<(u128, u128)>)
    ensures
        r is Ok <==> referral_split_fits(fee as int, *fee_structure),
        r is Ok ==> r->Ok_0.0 == spec_referrer_reward(fee as int, *fee_structure),
        r is Ok ==> r->Ok_0.1 == spec_referee_discount(fee as int, *fee_structure),
        r is Err ==> r->Err_0 == ErrorCode::MathError,
{
    let referrer_reward = get_proportion_u128(
        fee,
        fee_structure.referral_discount.referrer_reward_numerator,
        fee_structure.referral_discount.referrer_reward_denominator,
    )?;
    let referee_discount = get_proportion_u128(
        fee,
        fee_structure.referral_discount.referee_discount_numerator,
        fee_structure.referral_discount.referee_discount_denominator,
    )?;
    Ok((referrer_reward, referee_discount))
}

// ---------------------------------------------------------------------------
// Filler reward
// ---------------------------------------------------------------------------

/// Elapsed ticks since the order was placed, floored at one so that a
/// same-tick fill still earns a time-based reward.
pub open spec fn spec_elapsed(order_ts: i64, now: i64) -> int
    recommends
        now >= order_ts,
{
    if now - order_ts > 1 {
        now - order_ts
    } else {
        1
    }
}

/// The size-based reward candidate: a configured fraction of the fee.
pub open spec fn spec_size_reward(fee: int, structure: OrderFillerRewardStructure) -> int {
    spec_proportion(fee, structure.reward_numerator as int, structure.reward_denominator as int)
}

/// The time-based reward candidate:
/// `floor(fourth_root(elapsed * 10^8) * lower_bound / 100)`.
pub open spec fn spec_time_reward(
    order_ts: i64,
    now: i64,
    structure: OrderFillerRewardStructure,
) -> int {
    floor_fourth_root(spec_elapsed(order_ts, now) * 100_000_000)
        * structure.time_based_reward_lower_bound / 100
}

/// The filler reward: the lesser of the size-based and time-based
/// candidates.
pub open spec fn spec_filler_reward(
    fee: int,
    order_ts: i64,
    now: i64,
    structure: OrderFillerRewardStructure,
) -> int {
    let size_reward = spec_size_reward(fee, structure);
    let time_reward = spec_time_reward(order_ts, now, structure);
    if size_reward < time_reward {
        size_reward
    } else {
        time_reward
    }
}

/// Filler reward when a filler is to be rewarded, zero otherwise.
pub open spec fn spec_opt_filler_reward(
    fee: int,
    order_ts: i64,
    now: i64,
    structure: OrderFillerRewardStructure,
    reward_filler: bool,
) -> int {
    if reward_filler {
        spec_filler_reward(fee, order_ts, now, structure)
    } else {
        0
    }
}

/// Every checked step of the filler reward formula is computable: the
/// size-based proportion fits, the order is not from the future, the
/// elapsed time fits a tick count, and the scaled root does not overflow.
pub open spec fn filler_reward_fits(
    fee: int,
    order_ts: i64,
    now: i64,
    structure: OrderFillerRewardStructure,
) -> bool {
    &&& proportion_fits(fee, structure.reward_numerator as int, structure.reward_denominator as int)
    &&& now - order_ts >= 0
    &&& now - order_ts <= i64::MAX
    &&& floor_fourth_root(spec_elapsed(order_ts, now) * 100_000_000)
        * structure.time_based_reward_lower_bound <= u128::MAX
}

/// Converts the order's age and the fee into a bounded relayer incentive:
/// the lesser of a size-based fraction of the fee and a time-based curve
/// that grows with the fourth root of the elapsed ticks.
pub fn calculate_filler_reward(
    fee: u128,
    order_ts: i64,
    now: i64,
    filler_reward_structure: &OrderFillerRewardStructure,
) -> (r: ClearingHouseResult<u128>)
    ensures
        r is Ok <==> filler_reward_fits(fee as int, order_ts, now, *filler_reward_structure),
        r is Ok ==> r->Ok_0 == spec_filler_reward(
            fee as int,
            order_ts,
            now,
            *filler_reward_structure,
        ),
        r is Err ==> r->Err_0 == ErrorCode::MathError,
{
    let size_filler_reward = get_proportion_u128(
        fee,
        filler_reward_structure.reward_numerator,
        filler_reward_structure.reward_denominator,
    )?;

    let min_time_filler_reward = filler_reward_structure.time_based_reward_lower_bound;
    let signed_elapsed = now.checked_sub(order_ts).ok_or(ErrorCode::MathError)?;
    let unsigned_elapsed = cast_to_u128(signed_elapsed as i128)?;
    let time_since_order = if unsigned_elapsed > 1 {
        unsigned_elapsed
    } else {
        1
    };
    let scaled_age = time_since_order.checked_mul(100_000_000).ok_or(ErrorCode::MathError)?;
    let root = fourth_root(scaled_age);
    let time_filler_reward = root.checked_mul(min_time_filler_reward).ok_or(
        ErrorCode::MathError,
    )?;
    let time_filler_reward = time_filler_reward / 100;

    let reward = if size_filler_reward < time_filler_reward {
        size_filler_reward
    } else {
        time_filler_reward
    };
    Ok(reward)
}

// ---------------------------------------------------------------------------
// Matched-order path
// ---------------------------------------------------------------------------

/// The taker's fee on the matched path: the gross fee less the referee's
/// discount.
pub open spec fn spec_match_taker_fee(
    quote_asset_amount: int,
    fee_structure: FeeStructure,
    reward_referrer: bool,
) -> int {
    let fee = spec_exchange_fee(quote_asset_amount, fee_structure);
    fee - spec_opt_referee_discount(fee, fee_structure, reward_referrer)
}

/// The maker's rebate on the matched path, carved from the gross fee, not
/// from the post-referral net.
pub open spec fn spec_match_maker_rebate(
    quote_asset_amount: int,
    fee_structure: FeeStructure,
) -> int {
    let fee = spec_exchange_fee(quote_asset_amount, fee_structure);
    spec_proportion(
        fee,
        fee_structure.maker_rebate_numerator as int,
        fee_structure.maker_rebate_denominator as int,
    )
}

/// The residual kept by the market on the matched path: the taker's fee
/// less the filler reward, the referrer's reward and the maker's rebate.
pub open spec fn spec_match_fee_to_market(
    quote_asset_amount: int,
    fee_structure: FeeStructure,
    order_ts: i64,
    now: i64,
    reward_filler: bool,
    reward_referrer: bool,
) -> int {
    let fee = spec_exchange_fee(quote_asset_amount, fee_structure);
    spec_match_taker_fee(quote_asset_amount, fee_structure, reward_referrer)
        - spec_opt_filler_reward(
        fee,
        order_ts,
        now,
        fee_structure.filler_reward_structure,
        reward_filler,
    ) - spec_opt_referrer_reward(fee, fee_structure, reward_referrer)
        - spec_match_maker_rebate(quote_asset_amount, fee_structure)
}

/// Every checked step of the matched path is computable: the gross fee,
/// the maker rebate, the requested referral split and filler reward, and a
/// market residual that neither underflows nor exceeds the signed range.
pub open spec fn match_fees_fits(
    quote_asset_amount: int,
    fee_structure: FeeStructure,
    order_ts: i64,
    now: i64,
    reward_filler: bool,
    reward_referrer: bool,
) -> bool {
    let fee = spec_exchange_fee(quote_asset_amount, fee_structure);
    let maker_rebate = spec_match_maker_rebate(quote_asset_amount, fee_structure);
    let referee_discount = spec_opt_referee_discount(fee, fee_structure, reward_referrer);
    let referrer_reward = spec_opt_referrer_reward(fee, fee_structure, reward_referrer);
    let taker_fee = fee - referee_discount;
    let filler_reward = spec_opt_filler_reward(
        fee,
        order_ts,
        now,
        fee_structure.filler_reward_structure,
        reward_filler,
    );
    &&& exchange_fee_fits(quote_asset_amount, fee_structure)
    &&& proportion_fits(
        fee,
        fee_structure.maker_rebate_numerator as int,
        fee_structure.maker_rebate_denominator as int,
    )
    &&& (reward_referrer ==> referral_split_fits(fee, fee_structure))
    &&& referee_discount <= fee
    &&& (reward_filler ==> filler_reward_fits(
        fee,
        order_ts,
        now,
        fee_structure.filler_reward_structure,
    ))
    &&& filler_reward <= taker_fee
    &&& referrer_reward <= taker_fee - filler_reward
    &&& maker_rebate <= taker_fee - filler_reward - referrer_reward
    &&& taker_fee - filler_reward - referrer_reward - maker_rebate <= i128::MAX
}

/// The full result of the matched path as a function of its inputs:
/// `Ok` with every field pinned when each checked step is computable,
/// `Err(MathError)` otherwise.
pub open spec fn spec_match_fill_fees(
    quote_asset_amount: int,
    fee_structure: FeeStructure,
    order_ts: i64,
    now: i64,
    reward_filler: bool,
    reward_referrer: bool,
) -> ClearingHouseResult<FillFees> {
    if match_fees_fits(
        quote_asset_amount,
        fee_structure,
        order_ts,
        now,
        reward_filler,
        reward_referrer,
    ) {
        let fee = spec_exchange_fee(quote_asset_amount, fee_structure);
        Ok(
            FillFees {
                user_fee: spec_match_taker_fee(
                    quote_asset_amount,
                    fee_structure,
                    reward_referrer,
                ) as u128,
                maker_rebate: spec_match_maker_rebate(quote_asset_amount, fee_structure) as u128,
                fee_to_market: spec_match_fee_to_market(
                    quote_asset_amount,
                    fee_structure,
                    order_ts,
                    now,
                    reward_filler,
                    reward_referrer,
                ) as i128,
                fee_to_market_for_lp: 0,
                filler_reward: spec_opt_filler_reward(
                    fee,
                    order_ts,
                    now,
                    fee_structure.filler_reward_structure,
                    reward_filler,
                ) as u128,
                referee_discount: spec_opt_referee_discount(
                    fee,
                    fee_structure,
                    reward_referrer,
                ) as u128,
                referrer_reward: spec_opt_referrer_reward(
                    fee,
                    fee_structure,
                    reward_referrer,
                ) as u128,
            },
        )
    } else {
        Err(ErrorCode::MathError)
    }
}

/// Fees for a fill matched directly between two resting orders.  The
/// taker pays the gross fee less the referee discount; the maker rebate,
/// the referral split and the filler reward are all carved from the gross
/// fee; the market keeps the residual, which must not underflow.
pub fn calculate_fee_for_fulfillment_with_match(
    quote_asset_amount: u128,
    fee_structure: &FeeStructure,
    order_ts: i64,
    now: i64,
    reward_filler: bool,
    reward_referrer: bool,
) -> (r: ClearingHouseResult<FillFees>)
    ensures
        r is Ok <==> match_fees_fits(
            quote_asset_amount as int,
            *fee_structure,
            order_ts,
            now,
            reward_filler,
            reward_referrer,
        ),
        r is Ok ==> ({
            let fee = spec_exchange_fee(quote_asset_amount as int, *fee_structure);
            let fees = r->Ok_0;
            &&& fees.user_fee == spec_match_taker_fee(
                quote_asset_amount as int,
                *fee_structure,
                reward_referrer,
            )
            &&& fees.maker_rebate == spec_match_maker_rebate(
                quote_asset_amount as int,
                *fee_structure,
            )
            &&& fees.fee_to_market == spec_match_fee_to_market(
                quote_asset_amount as int,
                *fee_structure,
                order_ts,
                now,
                reward_filler,
                reward_referrer,
            )
            &&& fees.fee_to_market_for_lp == 0
            &&& fees.filler_reward == spec_opt_filler_reward(
                fee,
                order_ts,
                now,
                fee_structure.filler_reward_structure,
                reward_filler,
            )
            &&& fees.referee_discount == spec_opt_referee_discount(
                fee,
                *fee_structure,
                reward_referrer,
            )
            &&& fees.referrer_reward == spec_opt_referrer_reward(
                fee,
                *fee_structure,
                reward_referrer,
            )
        }),
        r is Err ==> r->Err_0 == ErrorCode::MathError,
        r == spec_match_fill_fees(
            quote_asset_amount as int,
            *fee_structure,
            order_ts,
            now,
            reward_filler,
            reward_referrer,
        ),
{
    let fee = get_proportion_u128(
        quote_asset_amount,
        fee_structure.fee_numerator,
        fee_structure.fee_denominator,
    )?;

    let maker_rebate = get_proportion_u128(
        fee,
        fee_structure.maker_rebate_numerator,
        fee_structure.maker_rebate_denominator,
    )?;

    let (referrer_reward, referee_discount): (u128, u128) = if reward_referrer {
        calculate_referrer_reward_and_referee_discount(fee, fee_structure)?
    } else {
        (0, 0)
    };

    let taker_fee = fee.checked_sub(referee_discount).ok_or(ErrorCode::MathError)?;

    let filler_reward: u128 = if !reward_filler {
        0
    } else {
        calculate_filler_reward(fee, order_ts, now, &fee_structure.filler_reward_structure)?
    };

    let residual = taker_fee.checked_sub(filler_reward).ok_or(ErrorCode::MathError)?
        .checked_sub(referrer_reward).ok_or(ErrorCode::MathError)?
        .checked_sub(maker_rebate).ok_or(ErrorCode::MathError)?;
    let fee_to_market = cast_to_i128(residual)?;

    Ok(
        FillFees {
            user_fee: taker_fee,
            maker_rebate,
            fee_to_market,
            filler_reward,
            referee_discount,
            referrer_reward,
            fee_to_market_for_lp: 0,
        },
    )
}

// ---------------------------------------------------------------------------
// AMM path
// ---------------------------------------------------------------------------

/// The taker's fee on the standard AMM path: the gross fee less the
/// referee's discount.  Zero on the post-only path, where the whole fee
/// base is the captured surplus.
pub open spec fn spec_amm_user_fee(
    quote_asset_amount: int,
    fee_structure: FeeStructure,
    reward_referrer: bool,
    is_post_only: bool,
) -> int {
    if is_post_only {
        0
    } else {
        let fee = spec_exchange_fee(quote_asset_amount, fee_structure);
        fee - spec_opt_referee_discount(fee, fee_structure, reward_referrer)
    }
}

/// The filler reward on the AMM path: carved from the surplus magnitude on
/// the post-only path, from the gross fee otherwise.
pub open spec fn spec_amm_filler_reward(
    quote_asset_amount: int,
    fee_structure: FeeStructure,
    order_ts: i64,
    now: i64,
    reward_filler: bool,
    quote_asset_amount_surplus: int,
    is_post_only: bool,
) -> int {
    if is_post_only {
        spec_opt_filler_reward(
            quote_asset_amount_surplus,
            order_ts,
            now,
            fee_structure.filler_reward_structure,
            reward_filler,
        )
    } else {
        spec_opt_filler_reward(
            spec_exchange_fee(quote_asset_amount, fee_structure),
            order_ts,
            now,
            fee_structure.filler_reward_structure,
            reward_filler,
        )
    }
}

/// The market's take on the AMM path: on the post-only path the surplus
/// less the filler reward; otherwise the taker's fee less the filler and
/// referrer rewards, plus the (possibly negative) surplus.
pub open spec fn spec_amm_fee_to_market(
    quote_asset_amount: int,
    fee_structure: FeeStructure,
    order_ts: i64,
    now: i64,
    reward_filler: bool,
    reward_referrer: bool,
    quote_asset_amount_surplus: int,
    is_post_only: bool,
) -> int {
    let filler_reward = spec_amm_filler_reward(
        quote_asset_amount,
        fee_structure,
        order_ts,
        now,
        reward_filler,
        quote_asset_amount_surplus,
        is_post_only,
    );
    if is_post_only {
        quote_asset_amount_surplus - filler_reward
    } else {
        let fee = spec_exchange_fee(quote_asset_amount, fee_structure);
        spec_amm_user_fee(quote_asset_amount, fee_structure, reward_referrer, false)
            - filler_reward - spec_opt_referrer_reward(fee, fee_structure, reward_referrer)
            + quote_asset_amount_surplus
    }
}

/// Every checked step of the AMM path is computable.
pub open spec fn amm_fees_fits(
    quote_asset_amount: int,
    fee_structure: FeeStructure,
    order_ts: i64,
    now: i64,
    reward_filler: bool,
    reward_referrer: bool,
    quote_asset_amount_surplus: int,
    is_post_only: bool,
) -> bool {
    if is_post_only {
        let filler_reward = spec_opt_filler_reward(
            quote_asset_amount_surplus,
            order_ts,
            now,
            fee_structure.filler_reward_structure,
            reward_filler,
        );
        &&& quote_asset_amount_surplus >= 0
        &&& (reward_filler ==> filler_reward_fits(
            quote_asset_amount_surplus,
            order_ts,
            now,
            fee_structure.filler_reward_structure,
        ))
        &&& filler_reward <= quote_asset_amount_surplus
    } else {
        let fee = spec_exchange_fee(quote_asset_amount, fee_structure);
        let referee_discount = spec_opt_referee_discount(fee, fee_structure, reward_referrer);
        let referrer_reward = spec_opt_referrer_reward(fee, fee_structure, reward_referrer);
        let user_fee = fee - referee_discount;
        let filler_reward = spec_opt_filler_reward(
            fee,
            order_ts,
            now,
            fee_structure.filler_reward_structure,
            reward_filler,
        );
        &&& exchange_fee_fits(quote_asset_amount, fee_structure)
        &&& (reward_referrer ==> referral_split_fits(fee, fee_structure))
        &&& referee_discount <= fee
        &&& (reward_filler ==> filler_reward_fits(
            fee,
            order_ts,
            now,
            fee_structure.filler_reward_structure,
        ))
        &&& filler_reward <= user_fee
        &&& referrer_reward <= user_fee - filler_reward
        &&& user_fee - filler_reward - referrer_reward <= i128::MAX
        &&& user_fee - filler_reward - referrer_reward + quote_asset_amount_surplus <= i128::MAX
    }
}

/// The full result of the AMM path as a function of its inputs.
pub open spec fn spec_amm_fill_fees(
    quote_asset_amount: int,
    fee_structure: FeeStructure,
    order_ts: i64,
    now: i64,
    reward_filler: bool,
    reward_referrer: bool,
    quote_asset_amount_surplus: int,
    is_post_only: bool,
) -> ClearingHouseResult<FillFees> {
    if amm_fees_fits(
        quote_asset_amount,
        fee_structure,
        order_ts,
        now,
        reward_filler,
        reward_referrer,
        quote_asset_amount_surplus,
        is_post_only,
    ) {
        let fee = spec_exchange_fee(quote_asset_amount, fee_structure);
        let fee_to_market = spec_amm_fee_to_market(
            quote_asset_amount,
            fee_structure,
            order_ts,
            now,
            reward_filler,
            reward_referrer,
            quote_asset_amount_surplus,
            is_post_only,
        );
        Ok(
            FillFees {
                user_fee: spec_amm_user_fee(
                    quote_asset_amount,
                    fee_structure,
                    reward_referrer,
                    is_post_only,
                ) as u128,
                maker_rebate: 0,
                fee_to_market: fee_to_market as i128,
                fee_to_market_for_lp: (if is_post_only {
                    0int
                } else {
                    fee_to_market - quote_asset_amount_surplus
                }) as i128,
                filler_reward: spec_amm_filler_reward(
                    quote_asset_amount,
                    fee_structure,
                    order_ts,
                    now,
                    reward_filler,
                    quote_asset_amount_surplus,
                    is_post_only,
                ) as u128,
                referee_discount: (if is_post_only {
                    0int
                } else {
                    spec_opt_referee_discount(fee, fee_structure, reward_referrer)
                }) as u128,
                referrer_reward: (if is_post_only {
                    0int
                } else {
                    spec_opt_referrer_reward(fee, fee_structure, reward_referrer)
                }) as u128,
            },
        )
    } else {
        Err(ErrorCode::MathError)
    }
}

/// Fees for a fill against the exchange's own automated market maker.  On
/// the post-only path the whole fee base is the captured price-improvement
/// surplus; otherwise the taker pays the gross fee less the referee
/// discount, and the surplus is an additive (possibly negative) component
/// of the market's take that is excluded from the liquidity providers'
/// share.
pub fn calculate_fee_for_order_fulfill_against_amm(
    quote_asset_amount: u128,
    fee_structure: &FeeStructure,
    order_ts: i64,
    now: i64,
    reward_filler: bool,
    reward_referrer: bool,
    quote_asset_amount_surplus: i128,
    is_post_only: bool,
) -> (r: ClearingHouseResult<FillFees>)
    ensures
        r is Ok <==> amm_fees_fits(
            quote_asset_amount as int,
            *fee_structure,
            order_ts,
            now,
            reward_filler,
            reward_referrer,
            quote_asset_amount_surplus as int,
            is_post_only,
        ),
        r is Ok ==> ({
            let fee = spec_exchange_fee(quote_asset_amount as int, *fee_structure);
            let fees = r->Ok_0;
            &&& fees.user_fee == spec_amm_user_fee(
                quote_asset_amount as int,
                *fee_structure,
                reward_referrer,
                is_post_only,
            )
            &&& fees.maker_rebate == 0
            &&& fees.fee_to_market == spec_amm_fee_to_market(
                quote_asset_amount as int,
                *fee_structure,
                order_ts,
                now,
                reward_filler,
                reward_referrer,
                quote_asset_amount_surplus as int,
                is_post_only,
            )
            &&& fees.fee_to_market_for_lp == (if is_post_only {
                0int
            } else {
                fees.fee_to_market - quote_asset_amount_surplus
            })
            &&& fees.filler_reward == spec_amm_filler_reward(
                quote_asset_amount as int,
                *fee_structure,
                order_ts,
                now,
                reward_filler,
                quote_asset_amount_surplus as int,
                is_post_only,
            )
            &&& fees.referee_discount == (if is_post_only {
                0int
            } else {
                spec_opt_referee_discount(fee, *fee_structure, reward_referrer)
            })
            &&& fees.referrer_reward == (if is_post_only {
                0int
            } else {
                spec_opt_referrer_reward(fee, *fee_structure, reward_referrer)
            })
        }),
        r is Err ==> r->Err_0 == ErrorCode::MathError,
        r == spec_amm_fill_fees(
            quote_asset_amount as int,
            *fee_structure,
            order_ts,
            now,
            reward_filler,
            reward_referrer,
            quote_asset_amount_surplus as int,
            is_post_only,
        ),
{
    if is_post_only {
        // The order was a resting maker order: the whole fee base is the
        // captured price-improvement surplus.
        let fee = cast_to_u128(quote_asset_amount_surplus)?;
        let filler_reward: u128 = if !reward_filler {
            0
        } else {
            calculate_filler_reward(fee, order_ts, now, &fee_structure.filler_reward_structure)?
        };
        let kept = fee.checked_sub(filler_reward).ok_or(ErrorCode::MathError)?;
        let fee_to_market = cast_to_i128(kept)?;
        let user_fee = 0u128;

        Ok(
            FillFees {
                user_fee,
                maker_rebate: 0,
                fee_to_market,
                fee_to_market_for_lp: 0,
                filler_reward,
                referee_discount: 0,
                referrer_reward: 0,
            },
        )
    } else {
        let fee = get_proportion_u128(
            quote_asset_amount,
            fee_structure.fee_numerator,
            fee_structure.fee_denominator,
        )?;

        let (referrer_reward, referee_discount): (u128, u128) = if reward_referrer {
            calculate_referrer_reward_and_referee_discount(fee, fee_structure)?
        } else {
            (0, 0)
        };

        let user_fee = fee.checked_sub(referee_discount).ok_or(ErrorCode::MathError)?;

        let filler_reward: u128 = if !reward_filler {
            0
        } else {
            calculate_filler_reward(fee, order_ts, now, &fee_structure.filler_reward_structure)?
        };

        let residual = user_fee.checked_sub(filler_reward).ok_or(ErrorCode::MathError)?
            .checked_sub(referrer_reward).ok_or(ErrorCode::MathError)?;
        let fee_to_market = cast_to_i128(residual)?.checked_add(quote_asset_amount_surplus).ok_or(
            ErrorCode::MathError,
        )?;

        let fee_to_market_for_lp = fee_to_market.checked_sub(quote_asset_amount_surplus).ok_or(
            ErrorCode::MathError,
        )?;

        Ok(
            FillFees {
                user_fee,
                maker_rebate: 0,
                fee_to_market,
                fee_to_market_for_lp,
                filler_reward,
                referee_discount,
                referrer_reward,
            },
        )
    }
}

// ---------------------------------------------------------------------------
// External-venue path
// ---------------------------------------------------------------------------

/// The user's fee on the external-venue path: the greater of the
/// exchange's own gross fee and what the venue already extracted, so the
/// exchange never charges less than the venue's fee plus its referrer
/// rebate.
pub open spec fn spec_serum_user_fee(
    quote_asset_amount: int,
    fee_structure: FeeStructure,
    serum_fee: int,
    serum_referrer_rebate: int,
) -> int {
    let fee = spec_exchange_fee(quote_asset_amount, fee_structure);
    let venue_take = serum_fee + serum_referrer_rebate;
    if fee > venue_take {
        fee
    } else {
        venue_take
    }
}

/// The filler reward on the external-venue path: the formula reward capped
/// by what can be paid immediately — the fill's own excess over the
/// venue's take, or the accumulated fee pool if that is larger.  When the
/// pool exceeds the fill's own excess, the reward can draw on fees that
/// earlier fills accumulated, a cross-fill subsidy this ceiling permits
/// deliberately.
pub open spec fn spec_serum_filler_reward(
    quote_asset_amount: int,
    fee_structure: FeeStructure,
    order_ts: i64,
    now: i64,
    reward_filler: bool,
    serum_fee: int,
    serum_referrer_rebate: int,
    fee_pool_amount: int,
) -> int {
    if reward_filler {
        let user_fee = spec_serum_user_fee(
            quote_asset_amount,
            fee_structure,
            serum_fee,
            serum_referrer_rebate,
        );
        let user_fee_available = user_fee - (serum_fee + serum_referrer_rebate);
        let available_fee = if user_fee_available > fee_pool_amount {
            user_fee_available
        } else {
            fee_pool_amount
        };
        let formula_reward = spec_filler_reward(
            user_fee,
            order_ts,
            now,
            fee_structure.filler_reward_structure,
        );
        if formula_reward < available_fee {
            formula_reward
        } else {
            available_fee
        }
    } else {
        0
    }
}

/// The market's take on the external-venue path: the user's fee less the
/// venue's own fee and the filler reward.
pub open spec fn spec_serum_fee_to_market(
    quote_asset_amount: int,
    fee_structure: FeeStructure,
    order_ts: i64,
    now: i64,
    reward_filler: bool,
    serum_fee: int,
    serum_referrer_rebate: int,
    fee_pool_amount: int,
) -> int {
    spec_serum_user_fee(quote_asset_amount, fee_structure, serum_fee, serum_referrer_rebate)
        - serum_fee - spec_serum_filler_reward(
        quote_asset_amount,
        fee_structure,
        order_ts,
        now,
        reward_filler,
        serum_fee,
        serum_referrer_rebate,
        fee_pool_amount,
    )
}

/// Every checked step of the external-venue path is computable.
pub open spec fn serum_fees_fits(
    quote_asset_amount: int,
    fee_structure: FeeStructure,
    order_ts: i64,
    now: i64,
    reward_filler: bool,
    serum_fee: int,
    serum_referrer_rebate: int,
    fee_pool_amount: int,
) -> bool {
    let user_fee = spec_serum_user_fee(
        quote_asset_amount,
        fee_structure,
        serum_fee,
        serum_referrer_rebate,
    );
    let filler_reward = spec_serum_filler_reward(
        quote_asset_amount,
        fee_structure,
        order_ts,
        now,
        reward_filler,
        serum_fee,
        serum_referrer_rebate,
        fee_pool_amount,
    );
    &&& exchange_fee_fits(quote_asset_amount, fee_structure)
    &&& serum_fee + serum_referrer_rebate <= u128::MAX
    &&& (reward_filler ==> filler_reward_fits(
        user_fee,
        order_ts,
        now,
        fee_structure.filler_reward_structure,
    ))
    &&& filler_reward <= user_fee - serum_fee
    &&& user_fee - serum_fee - filler_reward <= i128::MAX
    &&& serum_referrer_rebate <= i128::MAX
}

/// The full result of the external-venue path as a function of its
/// inputs.
pub open spec fn spec_serum_fill_fees(
    quote_asset_amount: int,
    fee_structure: FeeStructure,
    order_ts: i64,
    now: i64,
    reward_filler: bool,
    serum_fee: int,
    serum_referrer_rebate: int,
    fee_pool_amount: int,
) -> ClearingHouseResult<SerumFillFees> {
    if serum_fees_fits(
        quote_asset_amount,
        fee_structure,
        order_ts,
        now,
        reward_filler,
        serum_fee,
        serum_referrer_rebate,
        fee_pool_amount,
    ) {
        let fee_to_market = spec_serum_fee_to_market(
            quote_asset_amount,
            fee_structure,
            order_ts,
            now,
            reward_filler,
            serum_fee,
            serum_referrer_rebate,
            fee_pool_amount,
        );
        Ok(
            SerumFillFees {
                user_fee: spec_serum_user_fee(
                    quote_asset_amount,
                    fee_structure,
                    serum_fee,
                    serum_referrer_rebate,
                ) as u128,
                fee_to_market: fee_to_market as u128,
                fee_pool_delta: (fee_to_market - serum_referrer_rebate) as i128,
                filler_reward: spec_serum_filler_reward(
                    quote_asset_amount,
                    fee_structure,
                    order_ts,
                    now,
                    reward_filler,
                    serum_fee,
                    serum_referrer_rebate,
                    fee_pool_amount,
                ) as u128,
            },
        )
    } else {
        Err(ErrorCode::MathError)
    }
}

/// Fees for a fill routed through an external order-matching venue that
/// has already levied its own fee and rebated part of it to a referrer.
/// The relayer draws first from the fill's own excess over the venue's
/// take, falling back to the accumulated fee pool, but never exceeds the
/// formula reward; the pool delta may be negative.
pub fn calculate_fee_for_fulfillment_with_serum(
    quote_asset_amount: u128,
    fee_structure: &FeeStructure,
    order_ts: i64,
    now: i64,
    reward_filler: bool,
    serum_fee: u128,
    serum_referrer_rebate: u128,
    fee_pool_amount: u128,
) -> (r: ClearingHouseResult<SerumFillFees>)
    ensures
        r is Ok <==> serum_fees_fits(
            quote_asset_amount as int,
            *fee_structure,
            order_ts,
            now,
            reward_filler,
            serum_fee as int,
            serum_referrer_rebate as int,
            fee_pool_amount as int,
        ),
        r is Ok ==> ({
            let fees = r->Ok_0;
            &&& fees.user_fee == spec_serum_user_fee(
                quote_asset_amount as int,
                *fee_structure,
                serum_fee as int,
                serum_referrer_rebate as int,
            )
            &&& fees.user_fee >= serum_fee + serum_referrer_rebate
            &&& fees.filler_reward == spec_serum_filler_reward(
                quote_asset_amount as int,
                *fee_structure,
                order_ts,
                now,
                reward_filler,
                serum_fee as int,
                serum_referrer_rebate as int,
                fee_pool_amount as int,
            )
            &&& fees.fee_to_market == spec_serum_fee_to_market(
                quote_asset_amount as int,
                *fee_structure,
                order_ts,
                now,
                reward_filler,
                serum_fee as int,
                serum_referrer_rebate as int,
                fee_pool_amount as int,
            )
            &&& fees.fee_pool_delta == fees.fee_to_market - serum_referrer_rebate
        }),
        r is Err ==> r->Err_0 == ErrorCode::MathError,
        r == spec_serum_fill_fees(
            quote_asset_amount as int,
            *fee_structure,
            order_ts,
            now,
            reward_filler,
            serum_fee as int,
            serum_referrer_rebate as int,
            fee_pool_amount as int,
        ),
{
    let fee = get_proportion_u128(
        quote_asset_amount,
        fee_structure.fee_numerator,
        fee_structure.fee_denominator,
    )?;

    let serum_fee_plus_referrer_rebate = serum_fee.checked_add(serum_referrer_rebate).ok_or(
        ErrorCode::MathError,
    )?;

    let user_fee = if fee > serum_fee_plus_referrer_rebate {
        fee
    } else {
        serum_fee_plus_referrer_rebate
    };

    let filler_reward: u128 = if reward_filler {
        let user_fee_available = user_fee.checked_sub(serum_fee_plus_referrer_rebate).ok_or(
            ErrorCode::MathError,
        )?;

        // The relayer can only be paid immediately out of fees already in
        // the pool, or out of the fill's own excess over the venue's take.
        let available_fee = if user_fee_available > fee_pool_amount {
            user_fee_available
        } else {
            fee_pool_amount
        };

        let formula_reward = calculate_filler_reward(
            user_fee,
            order_ts,
            now,
            &fee_structure.filler_reward_structure,
        )?;
        if formula_reward < available_fee {
            formula_reward
        } else {
            available_fee
        }
    } else {
        0
    };

    let fee_to_market = user_fee.checked_sub(serum_fee).ok_or(ErrorCode::MathError)?
        .checked_sub(filler_reward).ok_or(ErrorCode::MathError)?;

    let fee_pool_delta = cast_to_i128(fee_to_market)?.checked_sub(
        cast_to_i128(serum_referrer_rebate)?,
    ).ok_or(ErrorCode::MathError)?;

    Ok(SerumFillFees { user_fee, fee_to_market, filler_reward, fee_pool_delta })
}

} // verus!
