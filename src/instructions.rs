pub mod add_liquidity;
pub mod remove_liquidity;
pub mod swap;
pub mod initialize_pool;
