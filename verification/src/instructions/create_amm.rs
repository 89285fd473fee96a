use crate::errors::TutorialError;
use crate::models::concentrated_liquidity::ConcentratedLiquidityConfig;
use crate::models::fee_strategy::{FeeConfig, FeeStrategy, BPS_DENOMINATOR};
use crate::models::price_impact::PriceImpactConfig;
use crate::models::volatility::VolatilityConfig;
use crate::state::{Address, Amm};
use vstd::prelude::*;

verus! {

/// The weight of the dynamic surcharge that a new market maker starts with: one half.
pub const INITIAL_ADJUSTMENT_FACTOR: u16 = 500;

/// The fee policy that a new market maker starts with: the fixed strategy at the given
/// fee, with half the fee as the lowest and twice the fee as the highest, the highest
/// held within one whole.
pub open spec fn spec_initial_fee_config(fee: u16) -> FeeConfig {
    FeeConfig {
        strategy: FeeStrategy::Fixed,
        min_fee_bps: (fee / 2) as u16,
        max_fee_bps: if 2 * fee > BPS_DENOMINATOR {
            BPS_DENOMINATOR
        } else {
            (2 * fee) as u16
        },
        base_fee_bps: fee,
        adjustment_factor: INITIAL_ADJUSTMENT_FACTOR,
    }
}

/// Sets up a market maker. A fee of a whole or more is refused. Else the market maker
/// starts with the fee policy derived from the fee, and with every other policy at its
/// default.
pub fn create_amm(id: Address, admin: Address, fee: u16) -> (r: Result<Amm, TutorialError>)
    ensures
        fee >= BPS_DENOMINATOR ==> r == Err::<Amm, TutorialError>(
            TutorialError::InvalidConfiguration,
        ),
        fee < BPS_DENOMINATOR ==> r.is_ok() && ({
            let amm = r.unwrap();
            &&& amm.well_formed()
            &&& amm.id == id
            &&& amm.admin == admin
            &&& amm.fee == fee
            &&& amm.fee_config == spec_initial_fee_config(fee)
            &&& amm.price_impact_config == PriceImpactConfig::spec_default()
            &&& amm.volatility_config == VolatilityConfig::spec_default()
            &&& amm.concentrated_liquidity_config == ConcentratedLiquidityConfig::spec_default()
        }),
{
    if fee >= BPS_DENOMINATOR {
        return Err(TutorialError::InvalidConfiguration);
    }
    let doubled: u16 = fee * 2;
    let fee_config = FeeConfig {
        strategy: FeeStrategy::Fixed,
        min_fee_bps: fee / 2,
        max_fee_bps: if doubled > BPS_DENOMINATOR {
            BPS_DENOMINATOR
        } else {
            doubled
        },
        base_fee_bps: fee,
        adjustment_factor: INITIAL_ADJUSTMENT_FACTOR,
    };
    Ok(
        Amm {
            id,
            admin,
            fee,
            fee_config,
            price_impact_config: PriceImpactConfig::default(),
            volatility_config: VolatilityConfig::default(),
            concentrated_liquidity_config: ConcentratedLiquidityConfig::default(),
        },
    )
}

} // verus!
