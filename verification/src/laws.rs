//! The engine's conservation and policy laws, stated and proved over the
//! spec functions that the calculators' contracts use.

use crate::error::ClearingHouseResult;
use crate::fees::{
    amm_fees_fits, filler_reward_fits, match_fees_fits, serum_fees_fits, spec_amm_fill_fees,
    spec_elapsed, spec_exchange_fee, spec_filler_reward, spec_match_fee_to_market,
    spec_match_fill_fees, spec_match_maker_rebate, spec_match_taker_fee, spec_opt_filler_reward,
    spec_opt_referee_discount, spec_opt_referrer_reward, spec_referee_discount,
    spec_referrer_reward, spec_serum_fill_fees, spec_serum_filler_reward, spec_serum_user_fee,
    spec_size_reward, spec_time_reward, FillFees, SerumFillFees,
};
use crate::state::{FeeStructure, OrderFillerRewardStructure};
use vstd::prelude::*;

verus! {

/// On the matched path the taker's fee is fully conserved: it equals the
/// market's take plus the filler reward, the referrer's reward and the
/// maker's rebate.
pub proof fn lemma_match_fee_conservation(
    quote_asset_amount: int,
    fee_structure: FeeStructure,
    order_ts: i64,
    now: i64,
    reward_filler: bool,
    reward_referrer: bool,
)
    requires
        match_fees_fits(
            quote_asset_amount,
            fee_structure,
            order_ts,
            now,
            reward_filler,
            reward_referrer,
        ),
    ensures
        ({
            let fee = spec_exchange_fee(quote_asset_amount, fee_structure);
            spec_match_taker_fee(quote_asset_amount, fee_structure, reward_referrer)
                == spec_match_fee_to_market(
                quote_asset_amount,
                fee_structure,
                order_ts,
                now,
                reward_filler,
                reward_referrer,
            ) + spec_opt_filler_reward(
                fee,
                order_ts,
                now,
                fee_structure.filler_reward_structure,
                reward_filler,
            ) + spec_opt_referrer_reward(fee, fee_structure, reward_referrer)
                + spec_match_maker_rebate(quote_asset_amount, fee_structure)
        }),
{
}

/// The filler reward never exceeds either candidate: it is at most the
/// size-based fraction of the fee and at most the time-based curve value;
/// and it is zero when no filler reward is requested.
pub proof fn lemma_filler_reward_bounded(
    fee: int,
    order_ts: i64,
    now: i64,
    structure: OrderFillerRewardStructure,
)
    ensures
        spec_filler_reward(fee, order_ts, now, structure) <= spec_size_reward(fee, structure),
        spec_filler_reward(fee, order_ts, now, structure) <= spec_time_reward(
            order_ts,
            now,
            structure,
        ),
        spec_opt_filler_reward(fee, order_ts, now, structure, false) == 0,
{
}

/// The referral split is exactly proportional: referrer reward and
/// referee discount are each `floor(fee * num / den)` against their own
/// ratio when referral is requested, and both are zero otherwise.
pub proof fn lemma_referral_split_proportions(fee: int, fee_structure: FeeStructure)
    ensures
        spec_opt_referrer_reward(fee, fee_structure, true) == spec_referrer_reward(
            fee,
            fee_structure,
        ),
        spec_referrer_reward(fee, fee_structure) == fee
            * fee_structure.referral_discount.referrer_reward_numerator
            / fee_structure.referral_discount.referrer_reward_denominator as int,
        spec_opt_referee_discount(fee, fee_structure, true) == spec_referee_discount(
            fee,
            fee_structure,
        ),
        spec_referee_discount(fee, fee_structure) == fee
            * fee_structure.referral_discount.referee_discount_numerator
            / fee_structure.referral_discount.referee_discount_denominator as int,
        spec_opt_referrer_reward(fee, fee_structure, false) == 0,
        spec_opt_referee_discount(fee, fee_structure, false) == 0,
{
}

/// On the external-venue path the user's fee always covers what the venue
/// already extracted: its own fee plus the rebate it paid its referrer.
pub proof fn lemma_serum_user_fee_covers_venue(
    quote_asset_amount: int,
    fee_structure: FeeStructure,
    serum_fee: int,
    serum_referrer_rebate: int,
)
    ensures
        spec_serum_user_fee(quote_asset_amount, fee_structure, serum_fee, serum_referrer_rebate)
            >= serum_fee + serum_referrer_rebate,
{
}

/// On the external-venue path the filler reward never exceeds the formula
/// reward for the user's fee, nor the funds available to pay it; it is
/// zero when no filler reward is requested.
pub proof fn lemma_serum_filler_reward_bounded(
    quote_asset_amount: int,
    fee_structure: FeeStructure,
    order_ts: i64,
    now: i64,
    serum_fee: int,
    serum_referrer_rebate: int,
    fee_pool_amount: int,
)
    ensures
        ({
            let user_fee = spec_serum_user_fee(
                quote_asset_amount,
                fee_structure,
                serum_fee,
                serum_referrer_rebate,
            );
            let user_fee_available = user_fee - (serum_fee + serum_referrer_rebate);
            let available_fee = if user_fee_available > fee_pool_amount {
                user_fee_available
            } else {
                fee_pool_amount
            };
            let reward = spec_serum_filler_reward(
                quote_asset_amount,
                fee_structure,
                order_ts,
                now,
                true,
                serum_fee,
                serum_referrer_rebate,
                fee_pool_amount,
            );
            &&& reward <= spec_filler_reward(
                user_fee,
                order_ts,
                now,
                fee_structure.filler_reward_structure,
            )
            &&& reward <= available_fee
        }),
        spec_serum_filler_reward(
            quote_asset_amount,
            fee_structure,
            order_ts,
            now,
            false,
            serum_fee,
            serum_referrer_rebate,
            fee_pool_amount,
        ) == 0,
{
}

/// The matched path is deterministic: any two results that its contract
/// admits for the same inputs are identical.
pub proof fn lemma_match_fees_deterministic(
    r1: ClearingHouseResult<FillFees>,
    r2: ClearingHouseResult<FillFees>,
    quote_asset_amount: u128,
    fee_structure: FeeStructure,
    order_ts: i64,
    now: i64,
    reward_filler: bool,
    reward_referrer: bool,
)
    requires
        r1 == spec_match_fill_fees(
            quote_asset_amount as int,
            fee_structure,
            order_ts,
            now,
            reward_filler,
            reward_referrer,
        ),
        r2 == spec_match_fill_fees(
            quote_asset_amount as int,
            fee_structure,
            order_ts,
            now,
            reward_filler,
            reward_referrer,
        ),
    ensures
        r1 == r2,
{
}

/// The AMM path is deterministic.
pub proof fn lemma_amm_fees_deterministic(
    r1: ClearingHouseResult<FillFees>,
    r2: ClearingHouseResult<FillFees>,
    quote_asset_amount: u128,
    fee_structure: FeeStructure,
    order_ts: i64,
    now: i64,
    reward_filler: bool,
    reward_referrer: bool,
    quote_asset_amount_surplus: i128,
    is_post_only: bool,
)
    requires
        r1 == spec_amm_fill_fees(
            quote_asset_amount as int,
            fee_structure,
            order_ts,
            now,
            reward_filler,
            reward_referrer,
            quote_asset_amount_surplus as int,
            is_post_only,
        ),
        r2 == spec_amm_fill_fees(
            quote_asset_amount as int,
            fee_structure,
            order_ts,
            now,
            reward_filler,
            reward_referrer,
            quote_asset_amount_surplus as int,
            is_post_only,
        ),
    ensures
        r1 == r2,
{
}

/// The external-venue path is deterministic.
pub proof fn lemma_serum_fees_deterministic(
    r1: ClearingHouseResult<SerumFillFees>,
    r2: ClearingHouseResult<SerumFillFees>,
    quote_asset_amount: u128,
    fee_structure: FeeStructure,
    order_ts: i64,
    now: i64,
    reward_filler: bool,
    serum_fee: u128,
    serum_referrer_rebate: u128,
    fee_pool_amount: u128,
)
    requires
        r1 == spec_serum_fill_fees(
            quote_asset_amount as int,
            fee_structure,
            order_ts,
            now,
            reward_filler,
            serum_fee as int,
            serum_referrer_rebate as int,
            fee_pool_amount as int,
        ),
        r2 == spec_serum_fill_fees(
            quote_asset_amount as int,
            fee_structure,
            order_ts,
            now,
            reward_filler,
            serum_fee as int,
            serum_referrer_rebate as int,
            fee_pool_amount as int,
        ),
    ensures
        r1 == r2,
{
}

/// Elapsed time is floored at one tick before the root computation: a
/// same-tick fill counts as one tick old, never zero.
pub proof fn lemma_elapsed_floored_at_one(order_ts: i64, now: i64)
    requires
        now >= order_ts,
    ensures
        spec_elapsed(order_ts, now) >= 1,
        order_ts == now ==> spec_elapsed(order_ts, now) == 1,
{
}

/// A base fee ratio with a zero denominator makes every path fail with an
/// arithmetic error rather than skip the computation.
pub proof fn lemma_zero_fee_denominator_rejected(
    quote_asset_amount: int,
    fee_structure: FeeStructure,
    order_ts: i64,
    now: i64,
    reward_filler: bool,
    reward_referrer: bool,
    quote_asset_amount_surplus: int,
    serum_fee: int,
    serum_referrer_rebate: int,
    fee_pool_amount: int,
)
    requires
        fee_structure.fee_denominator == 0,
    ensures
        !match_fees_fits(
            quote_asset_amount,
            fee_structure,
            order_ts,
            now,
            reward_filler,
            reward_referrer,
        ),
        !amm_fees_fits(
            quote_asset_amount,
            fee_structure,
            order_ts,
            now,
            reward_filler,
            reward_referrer,
            quote_asset_amount_surplus,
            false,
        ),
        !serum_fees_fits(
            quote_asset_amount,
            fee_structure,
            order_ts,
            now,
            reward_filler,
            serum_fee,
            serum_referrer_rebate,
            fee_pool_amount,
        ),
{
}

/// A filler reward ratio with a zero denominator makes the filler reward
/// computation fail with an arithmetic error.
pub proof fn lemma_zero_filler_denominator_rejected(
    fee: int,
    order_ts: i64,
    now: i64,
    structure: OrderFillerRewardStructure,
)
    requires
        structure.reward_denominator == 0,
    ensures
        !filler_reward_fits(fee, order_ts, now, structure),
{
}

} // verus!
