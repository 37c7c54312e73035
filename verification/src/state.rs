//! Fee configuration aggregates.
//!
//! Loaded once by the caller from governed parameters and passed by
//! reference into every computation; the engine never mutates them.

use vstd::prelude::*;

verus! {

/// Ratios of the referral split: the referrer's reward and the referee's
/// discount, each carved independently out of the same gross fee.
#[derive(Clone, Copy, Debug, PartialEq, Eq, Structural)]
pub struct ReferralDiscount {
    pub referrer_reward_numerator: u128,
    pub referrer_reward_denominator: u128,
    pub referee_discount_numerator: u128,
    pub referee_discount_denominator: u128,
}

/// Parameters of the filler reward curve: the size-based cap as a fraction
/// of the fee, and the scale of the time-based reward.
#[derive(Clone, Copy, Debug, PartialEq, Eq, Structural)]
pub struct OrderFillerRewardStructure {
    pub reward_numerator: u128,
    pub reward_denominator: u128,
    pub time_based_reward_lower_bound: u128,
}

/// The fee tier configuration: base fee rate, maker rebate rate, referral
/// split ratios and the filler reward curve.
#[derive(Clone, Copy, Debug, PartialEq, Eq, Structural)]
pub struct FeeStructure {
    pub fee_numerator: u128,
    pub fee_denominator: u128,
    pub maker_rebate_numerator: u128,
    pub maker_rebate_denominator: u128,
    pub referral_discount: ReferralDiscount,
    pub filler_reward_structure: OrderFillerRewardStructure,
}

/// The stock referral split: one twentieth of the gross fee to each side.
pub open spec fn spec_default_referral_discount() -> ReferralDiscount {
    ReferralDiscount {
        referrer_reward_numerator: 5,
        referrer_reward_denominator: 100,
        referee_discount_numerator: 5,
        referee_discount_denominator: 100,
    }
}

/// The stock filler reward curve: a tenth of the fee as the size-based
/// cap, with a time-based scale of ten thousand.
pub open spec fn spec_default_filler_reward_structure() -> OrderFillerRewardStructure {
    OrderFillerRewardStructure {
        reward_numerator: 1,
        reward_denominator: 10,
        time_based_reward_lower_bound: 10_000,
    }
}

/// The stock fee tier: a base fee of one tenth of a percent and a maker
/// rebate of three fifths of the fee.
pub open spec fn spec_default_fee_structure() -> FeeStructure {
    FeeStructure {
        fee_numerator: 1,
        fee_denominator: 1000,
        maker_rebate_numerator: 3,
        maker_rebate_denominator: 5,
        referral_discount: spec_default_referral_discount(),
        filler_reward_structure: spec_default_filler_reward_structure(),
    }
}

impl Default for ReferralDiscount {
    fn default() -> (r: Self)
        ensures
            r == spec_default_referral_discount(),
    {
        ReferralDiscount {
            referrer_reward_numerator: 5,
            referrer_reward_denominator: 100,
            referee_discount_numerator: 5,
            referee_discount_denominator: 100,
        }
    }
}

impl Default for OrderFillerRewardStructure {
    fn default() -> (r: Self)
        ensures
            r == spec_default_filler_reward_structure(),
    {
        OrderFillerRewardStructure {
            reward_numerator: 1,
            reward_denominator: 10,
            time_based_reward_lower_bound: 10_000,
        }
    }
}

impl Default for FeeStructure {
    fn default() -> (r: Self)
        ensures
            r == spec_default_fee_structure(),
    {
        FeeStructure {
            fee_numerator: 1,
            fee_denominator: 1000,
            maker_rebate_numerator: 3,
            maker_rebate_denominator: 5,
            referral_discount: ReferralDiscount::default(),
            filler_reward_structure: OrderFillerRewardStructure::default(),
        }
    }
}

} // verus!
