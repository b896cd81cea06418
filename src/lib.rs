//! Pricing and trade simulation for constant-product liquidity pools.
//!
//! Amounts and reserves are 256-bit unsigned integers; every step of the
//! arithmetic is checked, and a trade yields a new pool value instead of
//! changing the old one.

pub mod models;
pub mod uniswap_v2;
pub mod wide;

pub use models::{Address, ERC20Token, FeeFraction, FixedPoint, Pool, PoolErrorKind, PoolSimulationError};
pub use uniswap_v2::UniswapV2Pool;
pub use wide::U256;
