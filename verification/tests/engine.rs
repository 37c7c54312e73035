use clearing_house::casting::{cast_to_i128, cast_to_u128};
use clearing_house::constants::QUOTE_PRECISION;
use clearing_house::error::ErrorCode;
use clearing_house::fees::{
    calculate_fee_for_fulfillment_with_match, calculate_fee_for_fulfillment_with_serum,
    calculate_fee_for_order_fulfill_against_amm, calculate_filler_reward,
    calculate_referrer_reward_and_referee_discount,
};
use clearing_house::helpers::get_proportion_u128;
use clearing_house::state::{FeeStructure, OrderFillerRewardStructure, ReferralDiscount};

#[test]
fn proportion_is_floored() {
    assert_eq!(get_proportion_u128(7, 1, 2), Ok(3));
    assert_eq!(get_proportion_u128(100, 3, 7), Ok(42));
    assert_eq!(get_proportion_u128(0, 5, 9), Ok(0));
}

#[test]
fn proportion_zero_denominator_is_error() {
    assert_eq!(get_proportion_u128(100, 1, 0), Err(ErrorCode::MathError));
}

#[test]
fn proportion_overflow_is_error() {
    assert_eq!(get_proportion_u128(u128::MAX, 2, 2), Err(ErrorCode::MathError));
}

#[test]
fn casts_refuse_lossy_values() {
    assert_eq!(cast_to_u128(-1), Err(ErrorCode::MathError));
    assert_eq!(cast_to_u128(42), Ok(42));
    assert_eq!(cast_to_i128(u128::MAX), Err(ErrorCode::MathError));
    assert_eq!(cast_to_i128(42), Ok(42));
}

#[test]
fn referral_split_is_proportional() {
    let fee_structure = FeeStructure {
        referral_discount: ReferralDiscount {
            referrer_reward_numerator: 3,
            referrer_reward_denominator: 100,
            referee_discount_numerator: 7,
            referee_discount_denominator: 100,
        },
        ..FeeStructure::default()
    };
    let (referrer_reward, referee_discount) =
        calculate_referrer_reward_and_referee_discount(12345, &fee_structure).unwrap();
    assert_eq!(referrer_reward, 12345 * 3 / 100);
    assert_eq!(referee_discount, 12345 * 7 / 100);
}

#[test]
fn referral_zero_denominator_is_error() {
    let fee_structure = FeeStructure {
        referral_discount: ReferralDiscount {
            referrer_reward_numerator: 1,
            referrer_reward_denominator: 0,
            referee_discount_numerator: 1,
            referee_discount_denominator: 10,
        },
        ..FeeStructure::default()
    };
    let r = calculate_fee_for_fulfillment_with_match(
        100 * QUOTE_PRECISION,
        &fee_structure,
        0,
        0,
        false,
        true,
    );
    assert_eq!(r, Err(ErrorCode::MathError));
}

#[test]
fn fee_zero_denominator_is_error() {
    let fee_structure = FeeStructure {
        fee_denominator: 0,
        ..FeeStructure::default()
    };
    let matched = calculate_fee_for_fulfillment_with_match(
        100 * QUOTE_PRECISION,
        &fee_structure,
        0,
        0,
        false,
        false,
    );
    assert_eq!(matched, Err(ErrorCode::MathError));

    let amm = calculate_fee_for_order_fulfill_against_amm(
        100 * QUOTE_PRECISION,
        &fee_structure,
        0,
        0,
        false,
        false,
        0,
        false,
    );
    assert_eq!(amm, Err(ErrorCode::MathError));

    let serum = calculate_fee_for_fulfillment_with_serum(
        100 * QUOTE_PRECISION,
        &fee_structure,
        0,
        0,
        false,
        0,
        0,
        0,
    );
    assert_eq!(serum, Err(ErrorCode::MathError));
}

#[test]
fn filler_zero_denominator_is_error() {
    let structure = OrderFillerRewardStructure {
        reward_numerator: 1,
        reward_denominator: 0,
        time_based_reward_lower_bound: 10_000,
    };
    assert_eq!(
        calculate_filler_reward(100000, 0, 60, &structure),
        Err(ErrorCode::MathError)
    );
}

#[test]
fn filler_order_from_the_future_is_error() {
    let structure = OrderFillerRewardStructure::default();
    assert_eq!(
        calculate_filler_reward(100000, 10, 9, &structure),
        Err(ErrorCode::MathError)
    );
}

#[test]
fn filler_same_tick_elapsed_floors_to_one() {
    // order_ts == now: the elapsed time floors to 1 tick, never 0, so the
    // time-based candidate is fourth_root(10^8) * 10000 / 100 = 10000.
    let structure = OrderFillerRewardStructure {
        reward_numerator: 1,
        reward_denominator: 1,
        time_based_reward_lower_bound: 10_000,
    };
    assert_eq!(calculate_filler_reward(u128::MAX / 2, 77, 77, &structure), Ok(10000));
}

#[test]
fn filler_reward_below_both_candidates() {
    let structure = OrderFillerRewardStructure::default();
    let fee = 100000u128;
    let size_candidate = fee * structure.reward_numerator / structure.reward_denominator;
    let time_candidate =
        clearing_house::roots::fourth_root(60 * 100_000_000)
            * structure.time_based_reward_lower_bound
            / 100;
    let reward = calculate_filler_reward(fee, 0, 60, &structure).unwrap();
    assert!(reward <= size_candidate);
    assert!(reward <= time_candidate);
    assert_eq!(reward, size_candidate.min(time_candidate));
}

#[test]
fn repeated_invocation_is_identical() {
    let fee_structure = FeeStructure {
        referral_discount: ReferralDiscount {
            referrer_reward_numerator: 1,
            referrer_reward_denominator: 10,
            referee_discount_numerator: 1,
            referee_discount_denominator: 10,
        },
        ..FeeStructure::default()
    };

    let m1 = calculate_fee_for_fulfillment_with_match(
        100 * QUOTE_PRECISION,
        &fee_structure,
        0,
        60,
        true,
        true,
    );
    let m2 = calculate_fee_for_fulfillment_with_match(
        100 * QUOTE_PRECISION,
        &fee_structure,
        0,
        60,
        true,
        true,
    );
    assert_eq!(m1, m2);

    let a1 = calculate_fee_for_order_fulfill_against_amm(
        100 * QUOTE_PRECISION,
        &fee_structure,
        0,
        60,
        true,
        true,
        -500,
        false,
    );
    let a2 = calculate_fee_for_order_fulfill_against_amm(
        100 * QUOTE_PRECISION,
        &fee_structure,
        0,
        60,
        true,
        true,
        -500,
        false,
    );
    assert_eq!(a1, a2);

    let s1 = calculate_fee_for_fulfillment_with_serum(
        100 * QUOTE_PRECISION,
        &fee_structure,
        0,
        60,
        true,
        32000,
        8000,
        2000,
    );
    let s2 = calculate_fee_for_fulfillment_with_serum(
        100 * QUOTE_PRECISION,
        &fee_structure,
        0,
        60,
        true,
        32000,
        8000,
        2000,
    );
    assert_eq!(s1, s2);
}

#[test]
fn matched_taker_fee_is_conserved() {
    let fee_structure = FeeStructure {
        referral_discount: ReferralDiscount {
            referrer_reward_numerator: 1,
            referrer_reward_denominator: 10,
            referee_discount_numerator: 1,
            referee_discount_denominator: 10,
        },
        ..FeeStructure::default()
    };
    let fees = calculate_fee_for_fulfillment_with_match(
        100 * QUOTE_PRECISION,
        &fee_structure,
        0,
        60,
        true,
        true,
    )
    .unwrap();
    assert_eq!(
        fees.user_fee as i128,
        fees.fee_to_market
            + fees.filler_reward as i128
            + fees.referrer_reward as i128
            + fees.maker_rebate as i128
    );
}

#[test]
fn underfunded_tier_is_error() {
    // A maker rebate larger than the taker's fee would make the market
    // residual negative: the whole fill fails instead of clamping.
    let fee_structure = FeeStructure {
        maker_rebate_numerator: 2,
        maker_rebate_denominator: 1,
        ..FeeStructure::default()
    };
    let r = calculate_fee_for_fulfillment_with_match(
        100 * QUOTE_PRECISION,
        &fee_structure,
        0,
        0,
        false,
        false,
    );
    assert_eq!(r, Err(ErrorCode::MathError));
}
