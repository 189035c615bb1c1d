//! Bounds and scale constants shared by every component.

use vstd::prelude::*;

verus! {

/// Maximum question length for markets, in bytes.
pub const MAX_QUESTION_LEN: usize = 200;

/// Maximum number of resolvers per market.
pub const MAX_RESOLVERS: u8 = 10;

/// Minimum fee in basis points (0.1%).
pub const MIN_FEE_BPS: u16 = 10;

/// Maximum fee in basis points (10%).
pub const MAX_FEE_BPS: u16 = 1000;

/// Minimum batch interval in seconds (5 minutes).
pub const MIN_BATCH_INTERVAL: i64 = 300;

/// Maximum batch interval in seconds (24 hours).
pub const MAX_BATCH_INTERVAL: i64 = 86400;

/// Minimum resolver quorum.
pub const MIN_QUORUM: u8 = 1;

/// Minimum stake required to become a resolver, in the smallest token unit.
pub const MIN_RESOLVER_STAKE: u64 = 1000000;

/// Fixed-point scale for prices: 1000 stands for 100%.
pub const PRICE_SCALE: u64 = 1000;

/// The midpoint price, 50% in the fixed-point scale.
pub const HALF_PRICE: u64 = 500;

} // verus!
