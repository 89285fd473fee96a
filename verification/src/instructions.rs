pub mod create_amm;
pub mod create_pool;
pub mod swap_exact_tokens_for_tokens;
pub mod withdraw_liquidity;
