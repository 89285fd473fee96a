use crate::errors::TutorialError;
use crate::fixed_point::{
    div_raw, lemma_div_raw_whole, lemma_mul_raw_monotonic, lemma_mul_raw_whole, mul_raw, scale,
    Fixed,
};
use vstd::prelude::*;

verus! {

/// The lowest factor by which slippage scales an output: 0.9, rounded to the nearest
/// number with 53 significant bits, which lies just above nine tenths.
pub const MIN_ADJUSTMENT_BITS: i128 = 0xE666_6666_6666_6800;

/// The policy on price impact: whether it is enforced, and how strictly.
#[derive(Clone, Copy, Debug, PartialEq, Eq, Structural)]
pub struct PriceImpactConfig {
    /// Whether the protection is in force.
    pub enabled: bool,
    /// The largest accepted slippage, in basis points.
    pub max_slippage_bps: u16,
    /// The weight of the impact in the output's adjustment, in thousandths.
    pub dynamic_adjustment_factor: u16,
}

impl Default for PriceImpactConfig {
    fn default() -> (r: Self)
        ensures
            r == PriceImpactConfig::spec_default(),
            r.well_formed(),
    {
        PriceImpactConfig { enabled: false, max_slippage_bps: 50, dynamic_adjustment_factor: 1000 }
    }
}

impl PriceImpactConfig {
    /// The policy in use where none is given: not in force, with a bound of 50 basis
    /// points and a weight of one.
    pub open spec fn spec_default() -> PriceImpactConfig {
        PriceImpactConfig { enabled: false, max_slippage_bps: 50, dynamic_adjustment_factor: 1000 }
    }

    /// The slippage bound stays within one whole: `max_slippage_bps <= 10000`.
    pub open spec fn well_formed(self) -> bool {
        self.max_slippage_bps <= 10000
    }

    /// Accepts a policy whose slippage bound is within one whole, and refuses any other.
    pub fn validate(&self) -> (r: Result<(), TutorialError>)
        ensures
            self.well_formed() ==> r == Ok::<(), TutorialError>(()),
            !self.well_formed() ==> r == Err::<(), TutorialError>(
                TutorialError::InvalidConfiguration,
            ),
    {
        if self.max_slippage_bps <= 10000 {
            Ok(())
        } else {
            Err(TutorialError::InvalidConfiguration)
        }
    }
}

/// Measures the price impact of a trade and applies the policy on it.
pub struct PriceImpactCalculator;

impl PriceImpactCalculator {
    /// The price impact of a trade: `1 - price_after / price_before`, where
    /// `price_before = reserve_out / reserve_in` and
    /// `price_after = (reserve_out - output) / (reserve_in + input)`.
    /// The reserves after the trade must be amounts again, and each step representable.
    pub open spec fn spec_price_impact(
        input_amount: u64,
        output_amount: u64,
        reserve_in: u64,
        reserve_out: u64,
    ) -> Result<Fixed, TutorialError> {
        match Fixed::spec_ratio(reserve_out, reserve_in) {
            Err(e) => Err(e),
            Ok(price_before) => if output_amount > reserve_out || reserve_in + input_amount
                > u64::MAX {
                Err(TutorialError::ArithmeticOverflow)
            } else {
                match Fixed::spec_ratio(
                    (reserve_out - output_amount) as u64,
                    (reserve_in + input_amount) as u64,
                ) {
                    Err(e) => Err(e),
                    Ok(price_after) => match price_after.spec_checked_div(price_before) {
                        Err(e) => Err(e),
                        Ok(relative) => Fixed::one().spec_checked_sub(relative),
                    },
                }
            },
        }
    }

    /// Whether the policy accepts an impact: always where it is not in force, else
    /// exactly when `impact * 10000 <= max_slippage_bps`.
    pub open spec fn spec_is_price_impact_acceptable(
        config: PriceImpactConfig,
        price_impact: Fixed,
    ) -> bool {
        !config.enabled || price_impact@ * 10000 <= config.max_slippage_bps * scale()
    }

    /// The factor by which an output is scaled for an impact:
    /// `1 - impact * dynamic_adjustment_factor / 1000`, and never below the least factor.
    pub open spec fn spec_adjustment_factor(
        config: PriceImpactConfig,
        price_impact: Fixed,
    ) -> Result<Fixed, TutorialError> {
        match price_impact.spec_checked_mul(
            Fixed::spec_from_int(config.dynamic_adjustment_factor as int),
        ) {
            Err(e) => Err(e),
            Ok(weighted) => match weighted.spec_checked_div(Fixed::spec_from_int(1000)) {
                Err(e) => Err(e),
                Ok(reduction) => match Fixed::one().spec_checked_sub(reduction) {
                    Err(e) => Err(e),
                    Ok(factor) => Ok(
                        if factor@ < MIN_ADJUSTMENT_BITS {
                            Fixed { bits: MIN_ADJUSTMENT_BITS }
                        } else {
                            factor
                        },
                    ),
                },
            },
        }
    }

    /// The output adjusted for slippage: unchanged where the policy is not in force,
    /// else the output times the adjustment factor, rounded down.
    pub open spec fn spec_adjust_output_for_slippage(
        config: PriceImpactConfig,
        output_amount: u64,
        price_impact: Fixed,
    ) -> Result<u64, TutorialError> {
        if !config.enabled {
            Ok(output_amount)
        } else {
            match Self::spec_adjustment_factor(config, price_impact) {
                Err(e) => Err(e),
                Ok(factor) => match Fixed::spec_from_u64(output_amount) {
                    Err(e) => Err(e),
                    Ok(output) => match output.spec_checked_mul(factor) {
                        Err(e) => Err(e),
                        Ok(adjusted) => adjusted.spec_to_u64(),
                    },
                },
            }
        }
    }

    /// Whether a trade is worth its cost: `output_value > input_value * (1 + fee)`.
    pub open spec fn spec_is_trade_beneficial(
        input_value: Fixed,
        output_value: Fixed,
        fee_percentage: Fixed,
    ) -> Result<bool, TutorialError> {
        match Fixed::one().spec_checked_add(fee_percentage) {
            Err(e) => Err(e),
            Ok(rate) => match input_value.spec_checked_mul(rate) {
                Err(e) => Err(e),
                Ok(cost) => Ok(output_value@ > cost@),
            },
        }
    }

    /// The estimate of the impact before the output is known, taken with an output of
    /// zero, is never negative: a trade that only adds to the reserve it pays into cannot
    /// raise the price of what it buys.
    pub proof fn lemma_price_impact_estimate_nonnegative(
        input_amount: u64,
        reserve_in: u64,
        reserve_out: u64,
    )
        requires
            Self::spec_price_impact(input_amount, 0, reserve_in, reserve_out).is_ok(),
        ensures
            0 <= Self::spec_price_impact(input_amount, 0, reserve_in, reserve_out).unwrap()@
                <= scale(),
            reserve_in > 0,
            reserve_in + input_amount <= u64::MAX,
    {
        let s = scale();
        let after_in = reserve_in + input_amount;
        let before = Fixed::spec_ratio(reserve_out, reserve_in).unwrap()@;
        let after = Fixed::spec_ratio(reserve_out, after_in as u64).unwrap()@;
        lemma_div_raw_whole(reserve_out as int, reserve_in as int);
        lemma_div_raw_whole(reserve_out as int, after_in);
        assert(reserve_out * s >= 0) by (nonlinear_arith)
            requires
                reserve_out >= 0,
                s > 0,
        ;
        vstd::arithmetic::div_mod::lemma_div_is_ordered_by_denominator(
            reserve_out * s,
            reserve_in as int,
            after_in,
        );
        assert(0 <= after <= before);
        assert(before > 0);
        // The later price relative to the earlier one is at most one.
        assert(0 <= after * s <= before * s) by (nonlinear_arith)
            requires
                0 <= after <= before,
                s > 0,
        ;
        vstd::arithmetic::div_mod::lemma_div_is_ordered(after * s, before * s, before);
        vstd::arithmetic::div_mod::lemma_div_multiples_vanish(s, before);
        assert(before * s == s * before) by (nonlinear_arith);
        vstd::arithmetic::div_mod::lemma_div_pos_is_pos(after * s, before);
        assert(0 <= div_raw(after, before) <= s);
    }

    /// An impact that is not negative never raises an output: the adjusted output is at
    /// most the output it was made from.
    pub proof fn lemma_adjusted_output_at_most(
        config: PriceImpactConfig,
        output_amount: u64,
        price_impact: Fixed,
    )
        requires
            price_impact@ >= 0,
            Self::spec_adjust_output_for_slippage(config, output_amount, price_impact).is_ok(),
        ensures
            Self::spec_adjust_output_for_slippage(config, output_amount, price_impact).unwrap()
                <= output_amount,
    {
        if config.enabled {
            let s = scale();
            let weight = config.dynamic_adjustment_factor as int;
            lemma_mul_raw_whole(price_impact@, weight);
            let weighted = price_impact@ * weight;
            assert(weighted >= 0) by (nonlinear_arith)
                requires
                    weighted == price_impact@ * weight,
                    price_impact@ >= 0,
                    weight >= 0,
            ;
            assert(weighted * s >= 0) by (nonlinear_arith)
                requires
                    weighted >= 0,
                    s > 0,
            ;
            vstd::arithmetic::div_mod::lemma_div_pos_is_pos(weighted * s, 1000 * s);
            let reduction = div_raw(weighted, 1000 * s);
            assert(reduction >= 0);
            let factor = Self::spec_adjustment_factor(config, price_impact).unwrap()@;
            assert(0 <= factor <= s);
            let output = output_amount * s;
            lemma_mul_raw_monotonic(output, factor, s);
            lemma_mul_raw_whole(output, 1);
            lemma_mul_raw_monotonic(output, 0, factor);
            assert(output * 0 == 0);
            let adjusted = mul_raw(output, factor);
            assert(0 <= adjusted <= output);
            vstd::arithmetic::div_mod::lemma_div_is_ordered(adjusted, output, s);
            vstd::arithmetic::div_mod::lemma_div_multiples_vanish(output_amount as int, s);
            assert(output_amount * s == s * output_amount) by (nonlinear_arith);
        }
    }

    /// Slippage never takes more than a tenth: where the policy is in force, the
    /// adjusted output is at least nine tenths of the output it was made from, rounded
    /// down.
    pub proof fn lemma_adjusted_output_at_least(
        config: PriceImpactConfig,
        output_amount: u64,
        price_impact: Fixed,
    )
        requires
            Self::spec_adjust_output_for_slippage(config, output_amount, price_impact).is_ok(),
        ensures
            Self::spec_adjust_output_for_slippage(config, output_amount, price_impact).unwrap()
                >= (9 * output_amount) / 10,
    {
        if config.enabled {
            let s = scale();
            let least = MIN_ADJUSTMENT_BITS as int;
            let factor = Self::spec_adjustment_factor(config, price_impact).unwrap()@;
            let output = output_amount * s;
            assert(factor >= least);
            lemma_mul_raw_monotonic(output, least, factor);
            lemma_mul_raw_whole(least, output_amount as int);
            assert(output * least == least * (output_amount * s)) by (nonlinear_arith)
                requires
                    output == output_amount * s,
            ;
            let adjusted = mul_raw(output, factor);
            assert(adjusted >= least * output_amount);
            vstd::arithmetic::div_mod::lemma_div_is_ordered(least * output_amount, adjusted, s);
            // A tenth of nine times the output, rounded down, is below the output
            // times the least factor.
            let tenth = (9 * output_amount) / 10;
            assert(s * tenth <= least * output_amount) by (nonlinear_arith)
                requires
                    10 * tenth <= 9 * output_amount,
                    10 * least >= 9 * s,
                    0 <= tenth,
                    0 <= output_amount,
                    s > 0,
            ;
            vstd::arithmetic::div_mod::lemma_div_is_ordered(s * tenth, least * output_amount, s);
            vstd::arithmetic::div_mod::lemma_div_multiples_vanish(tenth, s);
        } else {
            assert((9 * output_amount) / 10 <= output_amount);
        }
    }

    /// Returns the price impact of a trade, `1 - price_after / price_before`. Called with
    /// an output of zero it gives an estimate before the output is known. The policy
    /// plays no part in the measure.
    pub fn calculate_price_impact(
        config: &PriceImpactConfig,
        input_amount: u64,
        output_amount: u64,
        reserve_in: u64,
        reserve_out: u64,
    ) -> (impact: Result<Fixed, TutorialError>)
        ensures
            impact == Self::spec_price_impact(input_amount, output_amount, reserve_in, reserve_out),
            output_amount == 0 && impact.is_ok() ==> 0 <= impact.unwrap()@ <= scale(),
    {
        proof {
            if output_amount == 0 && Self::spec_price_impact(
                input_amount,
                0,
                reserve_in,
                reserve_out,
            ).is_ok() {
                Self::lemma_price_impact_estimate_nonnegative(input_amount, reserve_in, reserve_out);
            }
        }
        let price_before = Fixed::ratio(reserve_out, reserve_in)?;
        if output_amount > reserve_out || input_amount > u64::MAX - reserve_in {
            return Err(TutorialError::ArithmeticOverflow);
        }
        let price_after = Fixed::ratio(reserve_out - output_amount, reserve_in + input_amount)?;
        let relative = price_after.checked_div(price_before)?;
        Fixed::one().checked_sub(relative)
    }

    /// Tells whether the policy accepts an impact: always where it is not in force, else
    /// exactly when `impact * 10000 <= max_slippage_bps`.
    pub fn is_price_impact_acceptable(config: &PriceImpactConfig, price_impact: Fixed) -> (ok: bool)
        ensures
            ok == Self::spec_is_price_impact_acceptable(*config, price_impact),
    {
        if !config.enabled {
            return true;
        }
        proof {
            lemma_mul_raw_whole(price_impact@, 10000);
        }
        match price_impact.checked_mul(Fixed::from_u16(10000)) {
            Ok(impact_bps) => impact_bps.bits <= Fixed::from_u16(config.max_slippage_bps).bits,
            // Out of range: far above every bound, or far below zero.
            Err(_) => price_impact.bits < 0,
        }
    }

    /// Returns the output adjusted for slippage. Where the policy is not in force the
    /// output comes back unchanged, whatever the impact. Where it is, the output is
    /// scaled by `1 - impact * dynamic_adjustment_factor / 1000`, a factor that is never
    /// taken below the least factor, and rounded down.
    pub fn adjust_output_for_slippage(
        config: &PriceImpactConfig,
        output_amount: u64,
        price_impact: Fixed,
    ) -> (adjusted: Result<u64, TutorialError>)
        ensures
            adjusted == Self::spec_adjust_output_for_slippage(*config, output_amount, price_impact),
            !config.enabled ==> adjusted == Ok::<u64, TutorialError>(output_amount),
            adjusted.is_ok() ==> adjusted.unwrap() >= (9 * output_amount) / 10,
            adjusted.is_ok() && price_impact@ >= 0 ==> adjusted.unwrap() <= output_amount,
    {
        proof {
            if Self::spec_adjust_output_for_slippage(*config, output_amount, price_impact).is_ok() {
                Self::lemma_adjusted_output_at_least(*config, output_amount, price_impact);
                if price_impact@ >= 0 {
                    Self::lemma_adjusted_output_at_most(*config, output_amount, price_impact);
                }
            }
        }
        if !config.enabled {
            return Ok(output_amount);
        }
        let weighted = price_impact.checked_mul(Fixed::from_u16(config.dynamic_adjustment_factor))?;
        let reduction = weighted.checked_div(Fixed::from_u16(1000))?;
        let factor = Fixed::one().checked_sub(reduction)?;
        let least = Fixed::from_bits(MIN_ADJUSTMENT_BITS);
        let bounded = if factor.bits < least.bits {
            least
        } else {
            factor
        };
        let output = Fixed::from_u64(output_amount)?;
        output.checked_mul(bounded)?.to_u64()
    }

    /// Tells whether a trade is worth its cost: `output_value > input_value * (1 + fee)`.
    pub fn is_trade_beneficial(
        input_value: Fixed,
        output_value: Fixed,
        fee_percentage: Fixed,
    ) -> (beneficial: Result<bool, TutorialError>)
        ensures
            beneficial == Self::spec_is_trade_beneficial(input_value, output_value, fee_percentage),
    {
        let rate = Fixed::one().checked_add(fee_percentage)?;
        let cost = input_value.checked_mul(rate)?;
        Ok(output_value.bits > cost.bits)
    }
}

} // verus!
