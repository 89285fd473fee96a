use crate::models::concentrated_liquidity::ConcentratedLiquidityConfig;
use crate::models::fee_strategy::FeeConfig;
use crate::models::price_impact::PriceImpactConfig;
use crate::models::volatility::{VolatilityConfig, VolatilityTracker};
use vstd::prelude::*;

verus! {

/// The key of an account: 32 bytes that the engine carries and never reads.
pub type Address = [u8; 32];

/// The policies that the pools of one market maker share.
#[derive(Clone, Copy, Debug)]
pub struct Amm {
    /// The key of the market maker.
    pub id: Address,
    /// The account with authority over the market maker.
    pub admin: Address,
    /// The fee set at creation, in basis points.
    pub fee: u16,
    /// The policy on fees.
    pub fee_config: FeeConfig,
    /// The policy on price impact.
    pub price_impact_config: PriceImpactConfig,
    /// The policy on volatility tracking.
    pub volatility_config: VolatilityConfig,
    /// The policy on concentrated liquidity.
    pub concentrated_liquidity_config: ConcentratedLiquidityConfig,
}

impl Amm {
    /// Every policy keeps its bounds.
    pub open spec fn well_formed(self) -> bool {
        &&& self.fee_config.well_formed()
        &&& self.price_impact_config.well_formed()
        &&& self.volatility_config.well_formed()
    }
}

impl Default for Amm {
    fn default() -> (r: Self)
        ensures
            r.well_formed(),
            r.fee == 0,
            r.fee_config == FeeConfig::spec_default(),
            r.price_impact_config == PriceImpactConfig::spec_default(),
            r.volatility_config == VolatilityConfig::spec_default(),
            r.concentrated_liquidity_config == ConcentratedLiquidityConfig::spec_default(),
    {
        Amm {
            id: [0u8;32],
            admin: [0u8;32],
            fee: 0,
            fee_config: FeeConfig::default(),
            price_impact_config: PriceImpactConfig::default(),
            volatility_config: VolatilityConfig::default(),
            concentrated_liquidity_config: ConcentratedLiquidityConfig::default(),
        }
    }
}

/// One trading pair of a market maker, with the history of its price.
#[derive(Clone, Copy, Debug)]
pub struct Pool {
    /// The key of the market maker that the pool belongs to.
    pub amm: Address,
    /// The mint of the first token.
    pub mint_a: Address,
    /// The mint of the second token.
    pub mint_b: Address,
    /// The price at creation, kept for reference.
    pub initial_price: u64,
    /// The history of the pool's price.
    pub volatility_tracker: VolatilityTracker,
}

impl Default for Pool {
    fn default() -> (r: Self)
        ensures
            r.initial_price == 0,
            r.volatility_tracker.is_empty(),
            r.volatility_tracker.well_formed(),
    {
        Pool {
            amm: [0u8;32],
            mint_a: [0u8;32],
            mint_b: [0u8;32],
            initial_price: 0,
            volatility_tracker: VolatilityTracker::default(),
        }
    }
}

} // verus!
