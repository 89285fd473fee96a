use crate::errors::TutorialError;
use crate::fixed_point::Fixed;
use vstd::prelude::*;

verus! {

/// The policy on concentrated liquidity: a price range around the current price within
/// which liquidity counts for more.
#[derive(Clone, Copy, Debug, PartialEq, Eq, Structural)]
pub struct ConcentratedLiquidityConfig {
    /// Whether liquidity is valued by range.
    pub enabled: bool,
    /// The half-width of the range, in percent of the current price.
    pub range_percentage: u16,
    /// The factor by which liquidity within the range counts, in thousandths.
    pub reward_multiplier: u16,
    /// The least width of a range.
    pub min_width: i64,
}

impl Default for ConcentratedLiquidityConfig {
    fn default() -> (r: Self)
        ensures
            r == ConcentratedLiquidityConfig::spec_default(),
    {
        ConcentratedLiquidityConfig {
            enabled: false,
            range_percentage: 10,
            reward_multiplier: 1200,
            min_width: 0,
        }
    }
}

impl ConcentratedLiquidityConfig {
    /// The policy in use where none is given: not in force, with a range of ten percent
    /// to either side and a reward factor of 1.2.
    pub open spec fn spec_default() -> ConcentratedLiquidityConfig {
        ConcentratedLiquidityConfig {
            enabled: false,
            range_percentage: 10,
            reward_multiplier: 1200,
            min_width: 0,
        }
    }
}

/// Values reserves under the policy on concentrated liquidity.
pub struct ConcentratedLiquidityPricing;

impl ConcentratedLiquidityPricing {
    /// The reward factor of the policy: `reward_multiplier / 1000`.
    pub open spec fn spec_boost(config: ConcentratedLiquidityConfig) -> Result<
        Fixed,
        TutorialError,
    > {
        Fixed::spec_from_int(config.reward_multiplier as int).spec_checked_div(
            Fixed::spec_from_int(1000),
        )
    }

    /// The product of two reserves.
    pub open spec fn spec_reserve_product(reserve_a: u64, reserve_b: u64) -> Result<
        Fixed,
        TutorialError,
    > {
        match Fixed::spec_from_u64(reserve_a) {
            Err(e) => Err(e),
            Ok(a) => match Fixed::spec_from_u64(reserve_b) {
                Err(e) => Err(e),
                Ok(b) => a.spec_checked_mul(b),
            },
        }
    }

    /// The value of two amounts under the policy: zero where it is not in force, else
    /// `(amount_a + amount_b * price) * reward_multiplier / 1000`.
    pub open spec fn spec_concentrated_liquidity_value(
        config: ConcentratedLiquidityConfig,
        current_price: Fixed,
        token_a_amount: u64,
        token_b_amount: u64,
    ) -> Result<Fixed, TutorialError> {
        if !config.enabled {
            Ok(Fixed::zero())
        } else {
            match Fixed::spec_from_u64(token_a_amount) {
                Err(e) => Err(e),
                Ok(a) => match Fixed::spec_from_u64(token_b_amount) {
                    Err(e) => Err(e),
                    Ok(b) => match b.spec_checked_mul(current_price) {
                        Err(e) => Err(e),
                        Ok(b_value) => match a.spec_checked_add(b_value) {
                            Err(e) => Err(e),
                            Ok(total) => match total.spec_checked_mul(
                                Fixed::spec_from_int(config.reward_multiplier as int),
                            ) {
                                Err(e) => Err(e),
                                Ok(weighted) => weighted.spec_checked_div(
                                    Fixed::spec_from_int(1000),
                                ),
                            },
                        },
                    },
                },
            }
        }
    }

    /// The ends of the policy's range around a price:
    /// `price * (1 - range_percentage / 100)` and `price * (1 + range_percentage / 100)`.
    pub open spec fn spec_price_range(
        config: ConcentratedLiquidityConfig,
        current_price: Fixed,
    ) -> Result<(Fixed, Fixed), TutorialError> {
        match Fixed::spec_from_int(config.range_percentage as int).spec_checked_div(
            Fixed::spec_from_int(100),
        ) {
            Err(e) => Err(e),
            Ok(range) => match Fixed::one().spec_checked_sub(range) {
                Err(e) => Err(e),
                Ok(below) => match current_price.spec_checked_mul(below) {
                    Err(e) => Err(e),
                    Ok(lower) => match Fixed::one().spec_checked_add(range) {
                        Err(e) => Err(e),
                        Ok(above) => match current_price.spec_checked_mul(above) {
                            Err(e) => Err(e),
                            Ok(upper) => Ok((lower, upper)),
                        },
                    },
                },
            },
        }
    }

    /// The depth of liquidity at a target price: the product of the reserves, times the
    /// reward factor where the policy is in force and the target lies within the range
    /// around the current price.
    pub open spec fn spec_liquidity_depth(
        config: ConcentratedLiquidityConfig,
        current_price: Fixed,
        target_price: Fixed,
        token_a_reserve: u64,
        token_b_reserve: u64,
    ) -> Result<Fixed, TutorialError> {
        if !config.enabled {
            Self::spec_reserve_product(token_a_reserve, token_b_reserve)
        } else {
            match Self::spec_price_range(config, current_price) {
                Err(e) => Err(e),
                Ok((lower, upper)) => match Self::spec_reserve_product(
                    token_a_reserve,
                    token_b_reserve,
                ) {
                    Err(e) => Err(e),
                    Ok(base) => if lower@ <= target_price@ <= upper@ {
                        match Self::spec_boost(config) {
                            Err(e) => Err(e),
                            Ok(boost) => base.spec_checked_mul(boost),
                        }
                    } else {
                        Ok(base)
                    },
                },
            }
        }
    }

    /// Returns the ends of the policy's range around a price.
    pub fn price_range(config: &ConcentratedLiquidityConfig, current_price: Fixed) -> (r: Result<
        (Fixed, Fixed),
        TutorialError,
    >)
        ensures
            r == Self::spec_price_range(*config, current_price),
    {
        let range = Fixed::from_u16(config.range_percentage).checked_div(Fixed::from_u16(100))?;
        let lower = current_price.checked_mul(Fixed::one().checked_sub(range)?)?;
        let upper = current_price.checked_mul(Fixed::one().checked_add(range)?)?;
        Ok((lower, upper))
    }

    /// Returns the value of two amounts under the policy: zero where it is not in force,
    /// else `(amount_a + amount_b * price) * reward_multiplier / 1000`.
    pub fn calculate_concentrated_liquidity_value(
        config: &ConcentratedLiquidityConfig,
        current_price: Fixed,
        token_a_amount: u64,
        token_b_amount: u64,
    ) -> (value: Result<Fixed, TutorialError>)
        ensures
            value == Self::spec_concentrated_liquidity_value(
                *config,
                current_price,
                token_a_amount,
                token_b_amount,
            ),
    {
        if !config.enabled {
            return Ok(Fixed::zero());
        }
        let token_a_value = Fixed::from_u64(token_a_amount)?;
        let token_b_value = Fixed::from_u64(token_b_amount)?.checked_mul(current_price)?;
        let total_value = token_a_value.checked_add(token_b_value)?;
        total_value.checked_mul(Fixed::from_u16(config.reward_multiplier))?.checked_div(
            Fixed::from_u16(1000),
        )
    }

    /// Returns the depth of liquidity at a target price: the product of the reserves,
    /// times the reward factor where the policy is in force and the target lies within
    /// the range around the current price.
    pub fn calculate_liquidity_depth(
        config: &ConcentratedLiquidityConfig,
        current_price: Fixed,
        target_price: Fixed,
        token_a_reserve: u64,
        token_b_reserve: u64,
    ) -> (depth: Result<Fixed, TutorialError>)
        ensures
            depth == Self::spec_liquidity_depth(
                *config,
                current_price,
                target_price,
                token_a_reserve,
                token_b_reserve,
            ),
    {
        if !config.enabled {
            return Fixed::from_u64(token_a_reserve)?.checked_mul(
                Fixed::from_u64(token_b_reserve)?,
            );
        }
        let (lower_price, upper_price) = Self::price_range(config, current_price)?;
        let base_liquidity = Fixed::from_u64(token_a_reserve)?.checked_mul(
            Fixed::from_u64(token_b_reserve)?,
        )?;
        if target_price.bits >= lower_price.bits && target_price.bits <= upper_price.bits {
            let boost_factor = Fixed::from_u16(config.reward_multiplier).checked_div(
                Fixed::from_u16(1000),
            )?;
            return base_liquidity.checked_mul(boost_factor);
        }
        Ok(base_liquidity)
    }
}

} // verus!
