pub mod concentrated_liquidity;
pub mod fee_strategy;
pub mod price_impact;
pub mod volatility;
