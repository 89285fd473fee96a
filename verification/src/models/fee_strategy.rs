use crate::errors::TutorialError;
use crate::fixed_point::{
    div_raw, lemma_div_raw_whole, lemma_mul_raw_monotonic, lemma_mul_raw_nonnegative,
    lemma_mul_raw_whole, lemma_whole_part_of_quotient, mul_raw, scale, Fixed, MAX_AMOUNT,
};
use vstd::prelude::*;

verus! {

/// Basis points in one whole: 10000 bps are 100%.
pub const BPS_DENOMINATOR: u16 = 10000;

/// The trade volume from which the second fee tier applies: 1,000 units at 6 decimals.
pub const TIER_1_VOLUME: u64 = 1_000_000_000;

/// The trade volume from which the third fee tier applies: 10,000 units at 6 decimals.
pub const TIER_2_VOLUME: u64 = 10_000_000_000;

/// The trade volume from which the last fee tier applies: 100,000 units at 6 decimals.
pub const TIER_3_VOLUME: u64 = 100_000_000_000;

/// The volatility below which the lowest fee is charged.
pub const LOW_VOLATILITY: u16 = 50;

/// The volatility above which the highest fee is charged.
pub const HIGH_VOLATILITY: u16 = 200;

/// How the fee rate of a trade is chosen.
#[derive(Clone, Copy, Debug, PartialEq, Eq, Structural)]
pub enum FeeStrategy {
    /// Always the base fee.
    Fixed,
    /// The base fee plus a surcharge that grows with the square of the trade's share of
    /// the reserve.
    Dynamic,
    /// A fee by the size of the trade: large trades pay less.
    Tiered,
    /// A fee that rises with the volatility of the price.
    VolatilityAdjusted,
}

impl Default for FeeStrategy {
    fn default() -> (r: Self)
        ensures
            r == FeeStrategy::Fixed,
    {
        FeeStrategy::Fixed
    }
}

/// The fee policy: a strategy and the bounds between which it moves.
#[derive(Clone, Copy, Debug, PartialEq, Eq, Structural)]
pub struct FeeConfig {
    /// The strategy in use.
    pub strategy: FeeStrategy,
    /// The lowest fee, in basis points.
    pub min_fee_bps: u16,
    /// The highest fee, in basis points.
    pub max_fee_bps: u16,
    /// The base fee, in basis points.
    pub base_fee_bps: u16,
    /// The weight of the dynamic surcharge, in thousandths.
    pub adjustment_factor: u16,
}

impl Default for FeeConfig {
    fn default() -> (r: Self)
        ensures
            r == FeeConfig::spec_default(),
            r.well_formed(),
    {
        FeeConfig {
            strategy: FeeStrategy::Fixed,
            min_fee_bps: 10,
            max_fee_bps: 100,
            base_fee_bps: 30,
            adjustment_factor: 1000,
        }
    }
}

impl FeeConfig {
    /// The policy in use where none is given: the fixed strategy at 30 basis points,
    /// between 10 and 100.
    pub open spec fn spec_default() -> FeeConfig {
        FeeConfig {
            strategy: FeeStrategy::Fixed,
            min_fee_bps: 10,
            max_fee_bps: 100,
            base_fee_bps: 30,
            adjustment_factor: 1000,
        }
    }

    /// The bounds are ordered and stay within one whole:
    /// `min_fee_bps <= base_fee_bps <= max_fee_bps <= 10000`.
    pub open spec fn well_formed(self) -> bool {
        self.min_fee_bps <= self.base_fee_bps <= self.max_fee_bps <= BPS_DENOMINATOR
    }

    /// Accepts a policy whose bounds are ordered and within one whole, and refuses any
    /// other.
    pub fn validate(&self) -> (r: Result<(), TutorialError>)
        ensures
            self.well_formed() ==> r == Ok::<(), TutorialError>(()),
            !self.well_formed() ==> r == Err::<(), TutorialError>(
                TutorialError::InvalidConfiguration,
            ),
    {
        if self.min_fee_bps <= self.base_fee_bps && self.base_fee_bps <= self.max_fee_bps
            && self.max_fee_bps <= BPS_DENOMINATOR {
            Ok(())
        } else {
            Err(TutorialError::InvalidConfiguration)
        }
    }
}

/// `v` moved into `[lo, hi]`.
pub open spec fn spec_clamp(v: int, lo: int, hi: int) -> int {
    if v < lo {
        lo
    } else if v > hi {
        hi
    } else {
        v
    }
}

/// The surcharge of the dynamic strategy stays in step with its parts: every partial
/// product is non-negative, and once one of them leaves the representable range, so
/// does every later one.
proof fn lemma_dynamic_surcharge(adjustment: int, ratio: int)
    requires
        0 <= adjustment < 0x100_0000_0000_0000_0000,
        0 <= ratio,
    ensures
        0 <= mul_raw(adjustment, ratio),
        0 <= mul_raw(mul_raw(adjustment, ratio), ratio),
        mul_raw(mul_raw(mul_raw(adjustment, ratio), ratio), BPS_DENOMINATOR * scale()) == mul_raw(
            mul_raw(adjustment, ratio),
            ratio,
        ) * BPS_DENOMINATOR,
        mul_raw(adjustment, ratio) > i128::MAX ==> mul_raw(mul_raw(adjustment, ratio), ratio)
            >= mul_raw(adjustment, ratio),
{
    let first = mul_raw(adjustment, ratio);
    let second = mul_raw(first, ratio);
    lemma_mul_raw_nonnegative(adjustment, ratio);
    lemma_mul_raw_nonnegative(first, ratio);
    lemma_mul_raw_whole(second, BPS_DENOMINATOR as int);
    if first > i128::MAX {
        lemma_mul_raw_whole(adjustment, 1);
        lemma_mul_raw_whole(first, 1);
        if ratio < scale() {
            lemma_mul_raw_monotonic(adjustment, ratio, scale());
        }
        lemma_mul_raw_monotonic(first, scale(), ratio);
    }
}

/// Computes the fee of a trade from the fee policy.
pub struct FeeCalculator;

impl FeeCalculator {
    /// The share of the reserve that a trade takes, in raw form, rounded down; one where
    /// the reserve is empty.
    pub open spec fn spec_trade_ratio(input_amount: u64, reserve: u64) -> int {
        if reserve == 0 {
            scale()
        } else {
            div_raw(input_amount * scale(), reserve * scale())
        }
    }

    /// The weight of the dynamic surcharge in raw form: the adjustment factor over 1000.
    pub open spec fn spec_adjustment(config: FeeConfig) -> int {
        div_raw(config.adjustment_factor * scale(), 1000 * scale())
    }

    /// The fee of the dynamic strategy before it is bounded, in raw form:
    /// `base_fee_bps + adjustment * ratio * ratio * 10000`, each product rounded down.
    pub open spec fn spec_dynamic_fee_raw(config: FeeConfig, input_amount: u64, reserve: u64) -> int {
        let ratio = Self::spec_trade_ratio(input_amount, reserve);
        let adjustment = Self::spec_adjustment(config);
        config.base_fee_bps * scale() + mul_raw(
            mul_raw(mul_raw(adjustment, ratio), ratio),
            BPS_DENOMINATOR * scale(),
        )
    }

    /// The fee of the dynamic strategy: the whole part of the unbounded fee, moved into
    /// the policy's bounds.
    pub open spec fn spec_dynamic_fee_bps(config: FeeConfig, input_amount: u64, reserve: u64) -> int {
        spec_clamp(
            Self::spec_dynamic_fee_raw(config, input_amount, reserve) / scale(),
            config.min_fee_bps as int,
            config.max_fee_bps as int,
        )
    }

    /// The fee of the tiered strategy. Each tier ends just below its threshold.
    pub open spec fn spec_tiered_fee_bps(config: FeeConfig, input_amount: u64) -> int {
        if input_amount < TIER_1_VOLUME {
            config.max_fee_bps as int
        } else if input_amount < TIER_2_VOLUME {
            (config.max_fee_bps + config.base_fee_bps) / 2
        } else if input_amount < TIER_3_VOLUME {
            config.base_fee_bps as int
        } else {
            config.min_fee_bps as int
        }
    }

    /// The fee of the volatility-adjusted strategy: the lowest fee below the low
    /// threshold, the highest above the high one, and between them the point on the line
    /// from lowest to highest that the volatility marks, rounded down.
    pub open spec fn spec_volatility_adjusted_fee_bps(config: FeeConfig, volatility: u16) -> int {
        if volatility < LOW_VOLATILITY {
            config.min_fee_bps as int
        } else if volatility > HIGH_VOLATILITY {
            config.max_fee_bps as int
        } else {
            config.min_fee_bps + ((volatility - LOW_VOLATILITY) * (config.max_fee_bps
                - config.min_fee_bps)) / (HIGH_VOLATILITY - LOW_VOLATILITY)
        }
    }

    /// The fee rate of a trade in basis points, by the policy's strategy. A missing
    /// volatility counts as zero.
    pub open spec fn spec_fee_rate_bps(
        config: FeeConfig,
        input_amount: u64,
        reserve_in: u64,
        volatility: Option<u16>,
    ) -> int {
        match config.strategy {
            FeeStrategy::Fixed => config.base_fee_bps as int,
            FeeStrategy::Dynamic => Self::spec_dynamic_fee_bps(config, input_amount, reserve_in),
            FeeStrategy::Tiered => Self::spec_tiered_fee_bps(config, input_amount),
            FeeStrategy::VolatilityAdjusted => Self::spec_volatility_adjusted_fee_bps(
                config,
                match volatility {
                    Some(v) => v,
                    None => 0,
                },
            ),
        }
    }

    /// The amounts on which the policy's strategy can work: the dynamic strategy forms
    /// the ratio of trade to reserve, so both must have a fixed-point representation.
    pub open spec fn amounts_supported(config: FeeConfig, input_amount: u64, reserve_in: u64) -> bool {
        config.strategy == FeeStrategy::Dynamic ==> input_amount <= MAX_AMOUNT && reserve_in
            <= MAX_AMOUNT
    }

    /// The fee of a trade: `input_amount * fee_bps / 10000`, rounded down. It is formed
    /// in fixed point, so the amount, the reserve where the strategy reads it, and the
    /// product of amount and rate must have a fixed-point representation.
    pub open spec fn spec_calculate_fee(
        config: FeeConfig,
        input_amount: u64,
        reserve_in: u64,
        volatility: Option<u16>,
    ) -> Result<u64, TutorialError> {
        let bps = Self::spec_fee_rate_bps(config, input_amount, reserve_in, volatility);
        if !Self::amounts_supported(config, input_amount, reserve_in) || input_amount
            > MAX_AMOUNT || input_amount * bps > MAX_AMOUNT {
            Err(TutorialError::ArithmeticOverflow)
        } else {
            Ok(((input_amount * bps) / (BPS_DENOMINATOR as int)) as u64)
        }
    }

    /// Every strategy keeps the fee rate within the policy's bounds.
    pub proof fn lemma_fee_rate_within_bounds(
        config: FeeConfig,
        input_amount: u64,
        reserve_in: u64,
        volatility: Option<u16>,
    )
        requires
            config.well_formed(),
        ensures
            config.min_fee_bps <= Self::spec_fee_rate_bps(
                config,
                input_amount,
                reserve_in,
                volatility,
            ) <= config.max_fee_bps,
    {
        if config.strategy == FeeStrategy::VolatilityAdjusted {
            let v = match volatility {
                Some(v) => v,
                None => 0,
            };
            if LOW_VOLATILITY <= v <= HIGH_VOLATILITY {
                let position = (v - LOW_VOLATILITY) as int;
                let range = (config.max_fee_bps - config.min_fee_bps) as int;
                assert(0 <= position * range <= 150 * range) by (nonlinear_arith)
                    requires
                        0 <= position <= 150,
                        0 <= range,
                ;
            }
        }
    }

    /// Returns the fee of a trade, `input_amount * fee_bps / 10000` rounded down, or
    /// `ArithmeticOverflow` where an amount or the product of amount and rate has no
    /// fixed-point representation.
    pub fn calculate_fee(
        config: &FeeConfig,
        input_amount: u64,
        reserve_in: u64,
        reserve_out: u64,
        volatility: Option<u16>,
    ) -> (fee: Result<u64, TutorialError>)
        requires
            config.well_formed(),
        ensures
            fee == Self::spec_calculate_fee(*config, input_amount, reserve_in, volatility),
            fee.is_ok() ==> fee.unwrap() <= input_amount,
    {
        if input_amount > MAX_AMOUNT || (config.strategy == FeeStrategy::Dynamic && reserve_in
            > MAX_AMOUNT) {
            return Err(TutorialError::ArithmeticOverflow);
        }
        let bps = Self::get_fee_rate_bps(config, input_amount, reserve_in, reserve_out, volatility);
        let amount = Fixed::from_u64(input_amount)?;
        proof {
            let product = input_amount * bps;
            assert(0 <= product <= input_amount * BPS_DENOMINATOR) by (nonlinear_arith)
                requires
                    product == input_amount * bps,
                    0 <= bps <= BPS_DENOMINATOR,
                    0 <= input_amount,
            ;
            lemma_mul_raw_whole(amount@, bps as int);
            assert((input_amount * scale()) * bps == product * scale()) by (nonlinear_arith)
                requires
                    product == input_amount * bps,
            ;
            lemma_div_raw_whole(product, BPS_DENOMINATOR as int);
            lemma_whole_part_of_quotient(product, BPS_DENOMINATOR as int);
        }
        let product = amount.checked_mul(Fixed::from_u16(bps))?;
        let fee = product.checked_div(Fixed::from_u16(BPS_DENOMINATOR))?;
        fee.to_u64()
    }

    /// Returns the fee rate of a trade in basis points, by the policy's strategy. The
    /// rate lies within the policy's bounds.
    pub fn get_fee_rate_bps(
        config: &FeeConfig,
        input_amount: u64,
        reserve_in: u64,
        reserve_out: u64,
        volatility: Option<u16>,
    ) -> (bps: u16)
        requires
            config.well_formed(),
            Self::amounts_supported(*config, input_amount, reserve_in),
        ensures
            bps == Self::spec_fee_rate_bps(*config, input_amount, reserve_in, volatility),
            config.min_fee_bps <= bps <= config.max_fee_bps,
    {
        proof {
            Self::lemma_fee_rate_within_bounds(*config, input_amount, reserve_in, volatility);
        }
        match config.strategy {
            FeeStrategy::Fixed => config.base_fee_bps,
            FeeStrategy::Dynamic => Self::calculate_dynamic_fee_bps(config, input_amount, reserve_in),
            FeeStrategy::Tiered => Self::calculate_tiered_fee_bps(config, input_amount),
            FeeStrategy::VolatilityAdjusted => Self::calculate_volatility_adjusted_fee_bps(
                config,
                match volatility {
                    Some(v) => v,
                    None => 0,
                },
            ),
        }
    }

    /// The dynamic fee. A surcharge too large to represent lies far above every bound, so
    /// the highest fee is charged for it.
    fn calculate_dynamic_fee_bps(config: &FeeConfig, input_amount: u64, reserve: u64) -> (bps: u16)
        requires
            config.well_formed(),
            input_amount <= MAX_AMOUNT,
            reserve <= MAX_AMOUNT,
        ensures
            bps == Self::spec_dynamic_fee_bps(*config, input_amount, reserve),
    {
        let ghost ratio_raw = Self::spec_trade_ratio(input_amount, reserve);
        let ghost adjustment_raw = Self::spec_adjustment(*config);
        let ghost first = mul_raw(adjustment_raw, ratio_raw);
        let ghost second = mul_raw(first, ratio_raw);
        let ghost fee_raw = Self::spec_dynamic_fee_raw(*config, input_amount, reserve);
        proof {
            if reserve != 0 {
                lemma_div_raw_whole(input_amount as int, reserve as int);
            }
            lemma_div_raw_whole(config.adjustment_factor as int, 1000);
            lemma_dynamic_surcharge(adjustment_raw, ratio_raw);
        }
        let ratio = if reserve == 0 {
            Fixed::one()
        } else {
            Fixed::from_i64(input_amount as i64).checked_div(
                Fixed::from_i64(reserve as i64),
            ).unwrap()
        };
        let adjustment = Fixed::from_u16(config.adjustment_factor).checked_div(
            Fixed::from_u16(1000),
        ).unwrap();
        let surcharge = match adjustment.checked_mul(ratio) {
            Ok(once) => match once.checked_mul(ratio) {
                Ok(twice) => twice.checked_mul(Fixed::from_u16(BPS_DENOMINATOR)),
                Err(e) => Err(e),
            },
            Err(e) => Err(e),
        };
        let calculated = match surcharge {
            Ok(s) => Fixed::from_u16(config.base_fee_bps).checked_add(s),
            Err(e) => Err(e),
        };
        match calculated {
            Ok(fee) => {
                assert(fee@ == fee_raw);
                let whole: u128 = (fee.bits as u128) / 0x1_0000_0000_0000_0000u128;
                if whole > config.max_fee_bps as u128 {
                    config.max_fee_bps
                } else if whole < config.min_fee_bps as u128 {
                    config.min_fee_bps
                } else {
                    whole as u16
                }
            },
            Err(_) => {
                assert(fee_raw > i128::MAX);
                config.max_fee_bps
            },
        }
    }

    /// The tiered fee.
    fn calculate_tiered_fee_bps(config: &FeeConfig, input_amount: u64) -> (bps: u16)
        requires
            config.well_formed(),
        ensures
            bps == Self::spec_tiered_fee_bps(*config, input_amount),
    {
        if input_amount < TIER_1_VOLUME {
            config.max_fee_bps
        } else if input_amount < TIER_2_VOLUME {
            (config.max_fee_bps + config.base_fee_bps) / 2
        } else if input_amount < TIER_3_VOLUME {
            config.base_fee_bps
        } else {
            config.min_fee_bps
        }
    }

    /// The volatility-adjusted fee.
    fn calculate_volatility_adjusted_fee_bps(config: &FeeConfig, volatility: u16) -> (bps: u16)
        requires
            config.well_formed(),
        ensures
            bps == Self::spec_volatility_adjusted_fee_bps(*config, volatility),
    {
        if volatility < LOW_VOLATILITY {
            config.min_fee_bps
        } else if volatility > HIGH_VOLATILITY {
            config.max_fee_bps
        } else {
            let range: u32 = (config.max_fee_bps - config.min_fee_bps) as u32;
            let position: u32 = (volatility - LOW_VOLATILITY) as u32;
            let width: u32 = (HIGH_VOLATILITY - LOW_VOLATILITY) as u32;
            assert(0 <= position * range <= 150 * range) by (nonlinear_arith)
                requires
                    0 <= position <= 150,
                    0 <= range,
            ;
            let step: u32 = (position * range) / width;
            (config.min_fee_bps as u32 + step) as u16
        }
    }
}

} // verus!
