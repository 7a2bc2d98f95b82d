//! Pricing core of a constant-product automated market maker.
//!
//! A pool holds a currency reserve and an asset (token) reserve. The engine
//! computes the exact counter-amount of a trade with a fixed input or a fixed
//! output under the constant-product curve with a proportional fee, rounding
//! in the pool's favor and reporting overflow or missing liquidity precisely.
//! The quote layer resolves a pool by asset identifier, normalizes amounts
//! across the two denominations, and maps internal failures to a small stable
//! error set.

pub mod conversion;
pub mod engine;
pub mod errors;
pub mod pool;
pub mod rpc;

pub use conversion::{ConversionRule, UnitConversion};
pub use engine::{compute_input_price, compute_output_price};
pub use errors::{Error, RpcError, RpcResult};
pub use pool::{PoolRegistry, PoolReserve};
pub use rpc::Pallet;
