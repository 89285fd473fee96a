use crate::models::volatility::VolatilityTracker;
use crate::state::{Address, Pool};
use vstd::prelude::*;

verus! {

/// Sets up a pool for a trading pair of a market maker: the initial price is kept for
/// reference, and the history of the price starts empty.
pub fn create_pool(amm: Address, mint_a: Address, mint_b: Address, initial_price: u64) -> (pool:
    Pool)
    ensures
        pool.amm == amm,
        pool.mint_a == mint_a,
        pool.mint_b == mint_b,
        pool.initial_price == initial_price,
        pool.volatility_tracker.is_empty(),
        pool.volatility_tracker.well_formed(),
{
    Pool { amm, mint_a, mint_b, initial_price, volatility_tracker: VolatilityTracker::default() }
}

} // verus!
