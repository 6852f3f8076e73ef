use vstd::prelude::*;

verus! {

/// Longest route a multi-hop request may take.
pub const MAX_ROUTE_HOPS: usize = 4;

/// Slippage tolerance offered when a caller names none: 1%, in basis points.
pub const DEFAULT_SLIPPAGE_TOLERANCE: u64 = 100;

/// Venue-wide ceiling on the estimated price impact: 10%, in basis points.
pub const MAX_PRICE_IMPACT: u64 = 1000;

/// Least liquidity a pool or position may hold.
pub const MINIMUM_LIQUIDITY: u128 = 1000;

} // verus!
