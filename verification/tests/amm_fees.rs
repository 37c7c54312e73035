use clearing_house::constants::QUOTE_PRECISION;
use clearing_house::error::ErrorCode;
use clearing_house::fees::{calculate_fee_for_order_fulfill_against_amm, FillFees};
use clearing_house::state::{FeeStructure, ReferralDiscount};

#[test]
fn fees_referrer() {
    let quote_asset_amount = 100 * QUOTE_PRECISION;

    let fee_structure = FeeStructure {
        referral_discount: ReferralDiscount {
            referrer_reward_numerator: 1,
            referrer_reward_denominator: 10,
            referee_discount_numerator: 1,
            referee_discount_denominator: 10,
        },
        ..FeeStructure::default()
    };

    let FillFees {
        user_fee,
        fee_to_market,
        filler_reward,
        referee_discount,
        referrer_reward,
        ..
    } = calculate_fee_for_order_fulfill_against_amm(
        quote_asset_amount,
        &fee_structure,
        0,
        60,
        false,
        true,
        0,
        false,
    )
    .unwrap();

    assert_eq!(user_fee, 90000);
    assert_eq!(fee_to_market, 80000);
    assert_eq!(filler_reward, 0);
    assert_eq!(referrer_reward, 10000);
    assert_eq!(referee_discount, 10000);
}

#[test]
fn post_only_surplus_less_filler_reward() {
    // Post-only: the whole fee base is the captured surplus; the filler
    // reward is carved from it and the user pays nothing.
    let mut fee_structure = FeeStructure::default();
    fee_structure.filler_reward_structure.reward_numerator = 1;
    fee_structure.filler_reward_structure.reward_denominator = 1;

    let fees = calculate_fee_for_order_fulfill_against_amm(
        0,
        &fee_structure,
        0,
        0,
        true,
        false,
        50000,
        true,
    )
    .unwrap();

    // Same-tick fill: the time-based candidate is 10000; the size-based
    // candidate is the whole surplus, so the time-based one wins.
    assert_eq!(fees.user_fee, 0);
    assert_eq!(fees.maker_rebate, 0);
    assert_eq!(fees.filler_reward, 10000);
    assert_eq!(fees.fee_to_market, 40000);
    assert_eq!(fees.fee_to_market_for_lp, 0);
    assert_eq!(fees.referee_discount, 0);
    assert_eq!(fees.referrer_reward, 0);
}

#[test]
fn negative_surplus_reduces_market_take() {
    // Standard mode with a negative surplus: the market absorbs the
    // slippage, but the liquidity providers' share excludes it.
    let fees = calculate_fee_for_order_fulfill_against_amm(
        100 * QUOTE_PRECISION,
        &FeeStructure::default(),
        0,
        0,
        false,
        false,
        -30000,
        false,
    )
    .unwrap();

    assert_eq!(fees.user_fee, 100000);
    assert_eq!(fees.fee_to_market, 70000);
    assert_eq!(fees.fee_to_market_for_lp, 100000);
}

#[test]
fn post_only_negative_surplus_is_error() {
    let r = calculate_fee_for_order_fulfill_against_amm(
        0,
        &FeeStructure::default(),
        0,
        0,
        false,
        false,
        -1,
        true,
    );
    assert_eq!(r, Err(ErrorCode::MathError));
}
