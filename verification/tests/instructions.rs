use anchor_spl_amm::errors::TutorialError;
use anchor_spl_amm::fixed_point::{Fixed, MAX_AMOUNT};
use anchor_spl_amm::instructions::create_amm::create_amm;
use anchor_spl_amm::instructions::create_pool::create_pool;
use anchor_spl_amm::instructions::swap_exact_tokens_for_tokens::{
    constant_product_output, quote_swap, reserve_product, settle_swap,
    swap_exact_tokens_for_tokens, taxed_input, volatility_reading, SwapBalances,
};
use anchor_spl_amm::instructions::withdraw_liquidity::{withdraw_liquidity, WithdrawalAmounts};
use anchor_spl_amm::models::concentrated_liquidity::ConcentratedLiquidityConfig;
use anchor_spl_amm::models::fee_strategy::{FeeConfig, FeeStrategy};
use anchor_spl_amm::models::price_impact::PriceImpactConfig;
use anchor_spl_amm::models::volatility::{PriceSample, VolatilityConfig, VolatilityTracker};
use anchor_spl_amm::state::{Amm, Pool};

fn amm(fee: u16) -> Amm {
    create_amm([1u8; 32], [2u8; 32], fee).unwrap()
}

fn balances(trader_a: u64, trader_b: u64, pool_a: u64, pool_b: u64) -> SwapBalances {
    SwapBalances {
        trader_account_a: trader_a,
        trader_account_b: trader_b,
        pool_account_a: pool_a,
        pool_account_b: pool_b,
    }
}

fn same(a: &VolatilityTracker, b: &VolatilityTracker) -> bool {
    a.price_samples == b.price_samples
        && a.timestamps == b.timestamps
        && a.current_index == b.current_index
        && a.volatility_raw == b.volatility_raw
        && a.last_updated == b.last_updated
        && a.last_compensated == b.last_compensated
}

#[test]
fn create_amm_derives_the_fee_policy() {
    let a = amm(30);
    assert_eq!(a.id, [1u8; 32]);
    assert_eq!(a.admin, [2u8; 32]);
    assert_eq!(a.fee, 30);
    assert_eq!(
        a.fee_config,
        FeeConfig { strategy: FeeStrategy::Fixed, min_fee_bps: 15, max_fee_bps: 60, base_fee_bps: 30, adjustment_factor: 500 }
    );
    assert_eq!(a.price_impact_config, PriceImpactConfig::default());
    assert_eq!(a.volatility_config, VolatilityConfig::default());
    assert_eq!(a.concentrated_liquidity_config, ConcentratedLiquidityConfig::default());
}

#[test]
fn create_amm_refuses_a_fee_of_one_whole_or_more() {
    assert_eq!(create_amm([0u8; 32], [0u8; 32], 10000).err(), Some(TutorialError::InvalidConfiguration));
    assert_eq!(create_amm([0u8; 32], [0u8; 32], u16::MAX).err(), Some(TutorialError::InvalidConfiguration));
    assert!(create_amm([0u8; 32], [0u8; 32], 9999).is_ok());
    assert!(create_amm([0u8; 32], [0u8; 32], 0).is_ok());
}

#[test]
fn create_amm_keeps_the_highest_fee_within_one_whole() {
    assert_eq!(amm(5000).fee_config.max_fee_bps, 10000);
    assert_eq!(amm(5001).fee_config.max_fee_bps, 10000);
    assert_eq!(amm(9999).fee_config.max_fee_bps, 10000);
    assert_eq!(amm(9999).fee_config.min_fee_bps, 4999);
    assert_eq!(amm(4999).fee_config.max_fee_bps, 9998);
    assert_eq!(amm(1).fee_config.min_fee_bps, 0);
    for fee in [0u16, 1, 30, 4999, 5000, 5001, 9999] {
        assert_eq!(amm(fee).fee_config.validate(), Ok(()));
    }
}

#[test]
fn default_state_is_empty() {
    let a = Amm::default();
    assert_eq!(a.fee, 0);
    assert_eq!(a.fee_config, FeeConfig::default());
    let p = Pool::default();
    assert_eq!(p.initial_price, 0);
    assert_eq!(p.volatility_tracker.current_index, 0);
    assert_eq!(p.volatility_tracker.timestamps, [0i64; 24]);
}

#[test]
fn create_pool_starts_with_an_empty_history() {
    let p = create_pool([1u8; 32], [3u8; 32], [4u8; 32], 1_500);
    assert_eq!(p.amm, [1u8; 32]);
    assert_eq!(p.mint_a, [3u8; 32]);
    assert_eq!(p.mint_b, [4u8; 32]);
    assert_eq!(p.initial_price, 1_500);
    assert!(same(&p.volatility_tracker, &VolatilityTracker::default()));
}

#[test]
fn withdrawal_takes_the_share_of_each_reserve() {
    assert_eq!(
        withdraw_liquidity(100, 1_000, 2_000, 900, 100),
        Ok(WithdrawalAmounts { amount_a: 100, amount_b: 200 })
    );
    assert_eq!(withdraw_liquidity(1, 999, 1_999, 900, 100), Ok(WithdrawalAmounts { amount_a: 0, amount_b: 1 }));
    assert_eq!(withdraw_liquidity(0, 999, 1_999, 900, 100), Ok(WithdrawalAmounts { amount_a: 0, amount_b: 0 }));
    assert_eq!(withdraw_liquidity(7, 10, 3, 0, 3), Ok(WithdrawalAmounts { amount_a: 23, amount_b: 7 }));
}

#[test]
fn withdrawal_refuses_what_has_no_representation() {
    let overflow = Err(TutorialError::ArithmeticOverflow);
    assert_eq!(withdraw_liquidity(MAX_AMOUNT + 1, 1, 1, 1, 1), overflow);
    assert_eq!(withdraw_liquidity(1, MAX_AMOUNT + 1, 1, 1, 1), overflow);
    assert_eq!(withdraw_liquidity(1, 1, MAX_AMOUNT + 1, 1, 1), overflow);
    assert_eq!(withdraw_liquidity(1 << 32, 1 << 31, 1, 1, 1), overflow);
    assert_eq!(withdraw_liquidity(1, 1, 1, u64::MAX, 1), overflow);
    assert_eq!(withdraw_liquidity(1, 1, 1, MAX_AMOUNT, 1), overflow);
    assert_eq!(withdraw_liquidity(1, 1, 1, 0, 0), Err(TutorialError::DivisionByZero));
    assert_eq!(
        withdraw_liquidity(1 << 31, 1 << 31, 1, MAX_AMOUNT - 1, 1),
        Ok(WithdrawalAmounts { amount_a: 0, amount_b: 0 })
    );
}

#[test]
fn taxed_input_is_the_input_less_the_fee() {
    assert_eq!(taxed_input(10_000, 30), 9_970);
    assert_eq!(taxed_input(10, 30), 10);
    assert_eq!(taxed_input(333, 30), 333);
    assert_eq!(taxed_input(334, 30), 333);
    assert_eq!(taxed_input(10_000, 0), 10_000);
    assert_eq!(taxed_input(10_000, 10000), 0);
    assert_eq!(taxed_input(u64::MAX, 10000), 0);
    assert_eq!(taxed_input(u64::MAX, 5000), u64::MAX - u64::MAX / 2);
}

#[test]
fn constant_product_output_exact_values() {
    assert_eq!(constant_product_output(9_970, 1_000_000, 1_000_000), Ok(9_871));
    assert_eq!(constant_product_output(10, 1_000, 1_000_000), Ok(9_900));
    assert_eq!(constant_product_output(0, 1_000, 1_000_000), Ok(0));
    assert_eq!(constant_product_output(5, 0, 1_000), Ok(1_000));
    assert_eq!(constant_product_output(5, 1_000, 0), Ok(0));
}

#[test]
fn constant_product_output_refuses_what_has_no_representation() {
    let overflow = Err(TutorialError::ArithmeticOverflow);
    assert_eq!(constant_product_output(MAX_AMOUNT + 1, 1, 1), overflow);
    assert_eq!(constant_product_output(1, 1, MAX_AMOUNT + 1), overflow);
    assert_eq!(constant_product_output(1 << 32, 1, 1 << 31), overflow);
    assert_eq!(constant_product_output(1, MAX_AMOUNT + 1, 1), overflow);
    assert_eq!(constant_product_output(1, MAX_AMOUNT, 1), overflow);
    assert_eq!(constant_product_output(0, 0, 1), Err(TutorialError::DivisionByZero));
}

#[test]
fn reserve_product_is_exact() {
    assert_eq!(reserve_product(1_000_000, 1_000_000), 1_000_000_000_000);
    assert_eq!(reserve_product(u64::MAX, u64::MAX), (u64::MAX as u128) * (u64::MAX as u128));
    assert_eq!(reserve_product(0, u64::MAX), 0);
}

#[test]
fn volatility_reading_is_the_whole_part_within_sixteen_bits() {
    let mut t = VolatilityTracker::default();
    assert_eq!(volatility_reading(&t), 0);
    t.volatility_raw = 162485036491956076386;
    assert_eq!(volatility_reading(&t), 8);
    t.volatility_raw = (65535i128 << 64) + 5;
    assert_eq!(volatility_reading(&t), 65535);
    t.volatility_raw = 65536i128 << 64;
    assert_eq!(volatility_reading(&t), 65535);
    t.volatility_raw = i128::MAX;
    assert_eq!(volatility_reading(&t), 65535);
    t.volatility_raw = -1;
    assert_eq!(volatility_reading(&t), 0);
    t.volatility_raw = i128::MIN;
    assert_eq!(volatility_reading(&t), 0);
}

#[test]
fn balanced_pool_at_thirty_basis_points() {
    let a = amm(30);
    let t = VolatilityTracker::default();
    let b = balances(1_000_000, 0, 1_000_000, 1_000_000);
    let quote = quote_swap(&a, &t, &b, true, 10_000).unwrap();
    assert_eq!(quote.input, 10_000);
    assert_eq!(quote.fee_rate_bps, 30);
    assert_eq!(quote.taxed_input, 9_970);
    assert_eq!(quote.output, 9_871);
    assert!(9_860 <= quote.output && quote.output <= 9_880);
    assert_eq!(quote.price_impact, Fixed::from_bits(182641030432767838));
    assert_eq!(quote.invariant_before, 1_000_000_000_000);
    // On a balanced pool the output is below the input, so the swap itself is refused
    // as not worth its cost.
    assert_eq!(
        swap_exact_tokens_for_tokens(&a, &t, &b, true, 10_000, 0),
        Err(TutorialError::TradeNotBeneficial)
    );
}

#[test]
fn swap_is_accepted_where_it_is_worth_its_cost() {
    let a = amm(30);
    let t = VolatilityTracker::default();
    let b = balances(50, 0, 1_000, 1_000_000);
    let swap = swap_exact_tokens_for_tokens(&a, &t, &b, true, 10, 0).unwrap();
    assert_eq!(swap.input, 10);
    assert_eq!(swap.taxed_input, 10);
    assert_eq!(swap.fee_rate_bps, 30);
    assert_eq!(swap.output, 9_900);
    assert_eq!(swap.invariant_before, 1_000_000_000);
    assert_eq!(Ok(swap), quote_swap(&a, &t, &b, true, 10));
}

#[test]
fn swap_in_the_other_direction_reads_the_other_reserves() {
    let a = amm(30);
    let t = VolatilityTracker::default();
    let b = balances(0, 50, 1_000_000, 1_000);
    let swap = swap_exact_tokens_for_tokens(&a, &t, &b, false, 10, 0).unwrap();
    assert_eq!(swap.output, 9_900);
    // In the first direction the trader owns nothing to pay in.
    assert_eq!(
        swap_exact_tokens_for_tokens(&a, &t, &b, true, 10, 0),
        Err(TutorialError::TradeNotBeneficial)
    );
}

#[test]
fn swap_output_at_the_minimum_is_accepted_and_one_below_is_refused() {
    let a = amm(30);
    let t = VolatilityTracker::default();
    let b = balances(50, 0, 1_000, 1_000_000);
    assert_eq!(swap_exact_tokens_for_tokens(&a, &t, &b, true, 10, 9_900).map(|s| s.output), Ok(9_900));
    assert_eq!(swap_exact_tokens_for_tokens(&a, &t, &b, true, 10, 9_899).map(|s| s.output), Ok(9_900));
    assert_eq!(
        swap_exact_tokens_for_tokens(&a, &t, &b, true, 10, 9_901),
        Err(TutorialError::OutputTooSmall)
    );
    assert_eq!(
        swap_exact_tokens_for_tokens(&a, &t, &b, true, 10, u64::MAX),
        Err(TutorialError::OutputTooSmall)
    );
}

#[test]
fn swap_input_is_held_within_what_the_trader_owns() {
    let a = amm(30);
    let t = VolatilityTracker::default();
    let b = balances(10, 0, 1_000, 1_000_000);
    let swap = swap_exact_tokens_for_tokens(&a, &t, &b, true, 500, 0).unwrap();
    assert_eq!(swap.input, 10);
    assert_eq!(swap.output, 9_900);
    let b = balances(500, 3, 1_000_000, 1_000);
    let swap = swap_exact_tokens_for_tokens(&a, &t, &b, false, 500, 0).unwrap();
    assert_eq!(swap.input, 3);
}

#[test]
fn accepted_swaps_keep_the_product_of_the_reserves() {
    let t = VolatilityTracker::default();
    let mut count = 0;
    for fee in [0u16, 30, 100, 9999] {
        let mut a = amm(fee);
        for enabled in [false, true] {
            a.price_impact_config = PriceImpactConfig { enabled, max_slippage_bps: 10000, dynamic_adjustment_factor: 700 };
            for reserve_in in [1u64, 7, 1_000, 123_456] {
                for reserve_out in [1_000u64, 1_000_000, 987_654_321] {
                    for input in [0u64, 1, 3, 10, 999, 50_000] {
                        let b = balances(u64::MAX, u64::MAX, reserve_in, reserve_out);
                        if let Ok(swap) = swap_exact_tokens_for_tokens(&a, &t, &b, true, input, 0) {
                            count += 1;
                            assert!(swap.output <= reserve_out);
                            let after = reserve_product(reserve_in + swap.input, reserve_out - swap.output);
                            assert!(after >= swap.invariant_before);
                            assert_eq!(swap.invariant_before, reserve_product(reserve_in, reserve_out));
                        }
                    }
                }
            }
        }
    }
    assert!(count > 50);
}

#[test]
fn swap_is_refused_where_the_price_impact_is_too_high() {
    let mut a = amm(30);
    a.price_impact_config = PriceImpactConfig { enabled: true, max_slippage_bps: 50, dynamic_adjustment_factor: 1000 };
    let t = VolatilityTracker::default();
    let b = balances(50, 0, 1_000, 1_000_000);
    assert_eq!(swap_exact_tokens_for_tokens(&a, &t, &b, true, 10, 0), Err(TutorialError::PriceImpactTooHigh));
    a.price_impact_config.max_slippage_bps = 100;
    let swap = swap_exact_tokens_for_tokens(&a, &t, &b, true, 10, 0).unwrap();
    // The output of 9900 is scaled by one less the impact of about 0.0099.
    assert_eq!(swap.output, 9_801);
    let b = balances(50, 0, 1_000_000, 1_000_000_000);
    a.price_impact_config.max_slippage_bps = 0;
    assert_eq!(swap_exact_tokens_for_tokens(&a, &t, &b, true, 0, 0), Err(TutorialError::TradeNotBeneficial));
}

#[test]
fn swap_refuses_empty_and_oversized_reserves() {
    let a = amm(30);
    let t = VolatilityTracker::default();
    assert_eq!(
        swap_exact_tokens_for_tokens(&a, &t, &balances(50, 0, 0, 1_000), true, 10, 0),
        Err(TutorialError::DivisionByZero)
    );
    assert_eq!(
        swap_exact_tokens_for_tokens(&a, &t, &balances(50, 0, 1_000, 0), true, 10, 0),
        Err(TutorialError::DivisionByZero)
    );
    assert_eq!(
        swap_exact_tokens_for_tokens(&a, &t, &balances(50, 0, MAX_AMOUNT + 1, 1_000), true, 10, 0),
        Err(TutorialError::ArithmeticOverflow)
    );
    let mut dynamic = amm(30);
    dynamic.fee_config.strategy = FeeStrategy::Dynamic;
    assert_eq!(
        swap_exact_tokens_for_tokens(&dynamic, &t, &balances(u64::MAX, 0, 1_000, 1_000), true, u64::MAX, 0),
        Err(TutorialError::ArithmeticOverflow)
    );
}

#[test]
fn swap_fee_follows_the_strategy_and_the_volatility() {
    let mut a = amm(30);
    a.fee_config = FeeConfig {
        strategy: FeeStrategy::VolatilityAdjusted,
        min_fee_bps: 10,
        max_fee_bps: 100,
        base_fee_bps: 30,
        adjustment_factor: 1000,
    };
    let mut t = VolatilityTracker::default();
    let b = balances(1_000_000, 0, 1_000_000, 1_000_000_000);
    assert_eq!(quote_swap(&a, &t, &b, true, 100_000).map(|q| (q.fee_rate_bps, q.taxed_input)), Ok((10, 99_900)));
    t.volatility_raw = 125i128 << 64;
    assert_eq!(quote_swap(&a, &t, &b, true, 100_000).map(|q| (q.fee_rate_bps, q.taxed_input)), Ok((55, 99_450)));
    t.volatility_raw = i128::MAX;
    assert_eq!(quote_swap(&a, &t, &b, true, 100_000).map(|q| (q.fee_rate_bps, q.taxed_input)), Ok((100, 99_000)));
    a.fee_config.strategy = FeeStrategy::Tiered;
    assert_eq!(quote_swap(&a, &t, &b, true, 100_000).map(|q| q.fee_rate_bps), Ok(100));
    a.fee_config.strategy = FeeStrategy::Dynamic;
    assert_eq!(quote_swap(&a, &t, &b, true, 100_000).map(|q| q.fee_rate_bps), Ok(100));
    assert_eq!(quote_swap(&a, &t, &b, true, 50_000).map(|q| q.fee_rate_bps), Ok(54));
}

#[test]
fn settle_refuses_a_product_that_went_down() {
    let mut c = VolatilityConfig::default();
    c.enabled = true;
    let mut t = VolatilityTracker::default();
    let before = t;
    assert_eq!(
        settle_swap(&mut t, 1_000_000_000, true, 1_010, 990_000, 3_600, &c),
        Err(TutorialError::InvariantViolated)
    );
    assert!(same(&t, &before));
    assert_eq!(settle_swap(&mut t, 999_900_001, true, 1_010, 990_000, 3_600, &c), Err(TutorialError::InvariantViolated));
    assert_eq!(settle_swap(&mut t, 999_900_000, true, 1_010, 990_000, 3_600, &c), Ok(()));
}

#[test]
fn settle_records_the_price_that_the_swap_leaves_behind() {
    let mut c = VolatilityConfig::default();
    c.enabled = true;
    let mut t = VolatilityTracker::default();
    assert_eq!(settle_swap(&mut t, 1_000_000_000, true, 1_010, 990_100, 3_600, &c), Ok(()));
    assert_eq!(t.current_index, 1);
    assert_eq!(t.last_updated, 3_600);
    assert_eq!(t.sample(0), PriceSample { price: Fixed::from_bits(18083288423148343618813), timestamp: 3_600 });
    let mut u = VolatilityTracker::default();
    assert_eq!(settle_swap(&mut u, 1_000_000_000, false, 990_100, 1_010, 3_600, &c), Ok(()));
    assert_eq!(u.sample(0), t.sample(0));
}

#[test]
fn settle_leaves_the_tracker_alone_where_tracking_is_not_enabled_or_the_price_fails() {
    let off = VolatilityConfig::default();
    let mut t = VolatilityTracker::default();
    let before = t;
    assert_eq!(settle_swap(&mut t, 0, true, 1_010, 990_100, 3_600, &off), Ok(()));
    assert!(same(&t, &before));
    let mut on = VolatilityConfig::default();
    on.enabled = true;
    assert_eq!(settle_swap(&mut t, 0, true, 0, 990_100, 3_600, &on), Err(TutorialError::DivisionByZero));
    assert!(same(&t, &before));
    assert_eq!(settle_swap(&mut t, 0, true, 1, MAX_AMOUNT + 1, 3_600, &on), Err(TutorialError::ArithmeticOverflow));
    assert!(same(&t, &before));
}

#[test]
fn swap_and_settle_feed_the_tracker() {
    let mut a = amm(30);
    a.volatility_config.enabled = true;
    a.volatility_config.min_samples = 1;
    let mut pool = create_pool(a.id, [3u8; 32], [4u8; 32], 1_000);
    let mut reserves = (1_000u64, 1_000_000_000u64);
    for round in 0..4i64 {
        let b = balances(1_000, 0, reserves.0, reserves.1);
        let swap = swap_exact_tokens_for_tokens(&a, &pool.volatility_tracker, &b, true, 10, 1).unwrap();
        reserves = (reserves.0 + swap.input, reserves.1 - swap.output);
        assert_eq!(
            settle_swap(&mut pool.volatility_tracker, swap.invariant_before, true, reserves.0, reserves.1, 3_600 * (round + 1), &a.volatility_config),
            Ok(())
        );
    }
    assert_eq!(pool.volatility_tracker.current_index, 4);
    assert!(pool.volatility_tracker.get_volatility().to_bits() > 0);
}
