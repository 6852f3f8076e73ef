use vstd::prelude::*;

use crate::error::ErrorCode;
use crate::state::{AccountKey, PoolState};
use crate::validation::{check_pool_active, tick_range_outcome, validate_tick_range};

verus! {

/// Whether a liquidity request adds to or removes from a range.
#[derive(Clone, Copy, Debug, PartialEq, Eq, Structural)]
pub enum LiquidityChangeKind {
    Added,
    Removed,
}

/// A request to add or remove liquidity over `[tick_lower, tick_upper)`.
#[derive(Clone, Copy, Debug, PartialEq, Eq, Structural)]
pub struct LiquidityChange {
    pub kind: LiquidityChangeKind,
    pub liquidity_delta: u128,
    pub tick_lower: i32,
    pub tick_upper: i32,
    pub amount_0: u64,
    pub amount_1: u64,
}

#[derive(Clone, Copy, Debug, PartialEq, Eq)]
pub struct LiquidityAddedEvent {
    pub pool_id: AccountKey,
    pub liquidity_delta: u128,
    pub tick_lower: i32,
    pub tick_upper: i32,
    pub amount_0: u64,
    pub amount_1: u64,
}

#[derive(Clone, Copy, Debug, PartialEq, Eq)]
pub struct LiquidityRemovedEvent {
    pub pool_id: AccountKey,
    pub liquidity_delta: u128,
    pub tick_lower: i32,
    pub tick_upper: i32,
    pub amount_0: u64,
    pub amount_1: u64,
}

/// The event an admitted liquidity request emits.
#[derive(Clone, Copy, Debug, PartialEq, Eq)]
pub enum LiquidityEvent {
    Added(LiquidityAddedEvent),
    Removed(LiquidityRemovedEvent),
}

/// The event that admitting `change` on `pool` emits.
pub open spec fn liquidity_event(pool: PoolState, change: LiquidityChange) -> LiquidityEvent {
    match change.kind {
        LiquidityChangeKind::Added => LiquidityEvent::Added(
            LiquidityAddedEvent {
                pool_id: pool.pool_id,
                liquidity_delta: change.liquidity_delta,
                tick_lower: change.tick_lower,
                tick_upper: change.tick_upper,
                amount_0: change.amount_0,
                amount_1: change.amount_1,
            },
        ),
        LiquidityChangeKind::Removed => LiquidityEvent::Removed(
            LiquidityRemovedEvent {
                pool_id: pool.pool_id,
                liquidity_delta: change.liquidity_delta,
                tick_lower: change.tick_lower,
                tick_upper: change.tick_upper,
                amount_0: change.amount_0,
                amount_1: change.amount_1,
            },
        ),
    }
}

/// The admission decision for a liquidity request: pause first, then the
/// tick range against the pool's spacing.
pub open spec fn liquidity_admission(pool: PoolState, change: LiquidityChange) -> Result<
    LiquidityEvent,
    ErrorCode,
> {
    if pool.is_paused {
        Err(ErrorCode::PoolPaused)
    } else {
        match tick_range_outcome(change.tick_lower, change.tick_upper, pool.tick_spacing) {
            Err(e) => Err(e),
            Ok(()) => Ok(liquidity_event(pool, change)),
        }
    }
}

/// Decides a liquidity request and returns the event it emits.
pub fn admit_liquidity_change(pool: &PoolState, change: &LiquidityChange) -> (r: Result<
    LiquidityEvent,
    ErrorCode,
>)
    ensures
        r == liquidity_admission(*pool, *change),
{
    check_pool_active(pool)?;
    validate_tick_range(change.tick_lower, change.tick_upper, pool.tick_spacing)?;
    let event = match change.kind {
        LiquidityChangeKind::Added => LiquidityEvent::Added(
            LiquidityAddedEvent {
                pool_id: pool.pool_id,
                liquidity_delta: change.liquidity_delta,
                tick_lower: change.tick_lower,
                tick_upper: change.tick_upper,
                amount_0: change.amount_0,
                amount_1: change.amount_1,
            },
        ),
        LiquidityChangeKind::Removed => LiquidityEvent::Removed(
            LiquidityRemovedEvent {
                pool_id: pool.pool_id,
                liquidity_delta: change.liquidity_delta,
                tick_lower: change.tick_lower,
                tick_upper: change.tick_upper,
                amount_0: change.amount_0,
                amount_1: change.amount_1,
            },
        ),
    };
    Ok(event)
}

} // verus!
