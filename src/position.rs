use vstd::prelude::*;

use crate::error::ErrorCode;
use crate::state::{AccountKey, PoolState};
use crate::validation::{check_pool_active, tick_range_ok, tick_range_outcome, validate_tick_range};

verus! {

/// A provider's liquidity over one tick range, with its fee bookkeeping.
#[derive(Clone, Copy, Debug, PartialEq, Eq, Structural)]
pub struct PositionInfo {
    pub liquidity: u128,
    pub tick_lower_index: i32,
    pub tick_upper_index: i32,
    pub fee_growth_inside_0_last: u128,
    pub fee_growth_inside_1_last: u128,
    pub tokens_owed_0: u64,
    pub tokens_owed_1: u64,
}

/// A position as recorded for its owner in one pool.
#[derive(Clone, Copy, Debug, PartialEq, Eq)]
pub struct UserPosition {
    pub owner: AccountKey,
    pub pool: AccountKey,
    pub position_info: PositionInfo,
    pub created_at: i64,
    pub last_updated: i64,
}

/// What changed a position.
#[derive(Clone, Copy, Debug, PartialEq, Eq, Structural)]
pub enum PositionUpdateKind {
    Opened,
    LiquidityAdded,
    LiquidityRemoved,
    FeesCollected,
}

/// Emitted whenever a position changes.
#[derive(Clone, Copy, Debug, PartialEq, Eq)]
pub struct PositionUpdateEvent {
    pub owner: AccountKey,
    pub pool: AccountKey,
    pub liquidity: u128,
    pub tick_lower: i32,
    pub tick_upper: i32,
    pub tokens_owed_0: u64,
    pub tokens_owed_1: u64,
    pub update_kind: PositionUpdateKind,
}

impl PositionInfo {
    /// The range is non-empty and on the pool's grid.
    pub open spec fn wf(&self, tick_spacing: int) -> bool {
        tick_range_ok(self.tick_lower_index as int, self.tick_upper_index as int, tick_spacing)
    }

    /// Checks the position's range against the pool's spacing.
    pub fn validate(&self, tick_spacing: i32) -> (r: Result<(), ErrorCode>)
        ensures
            r == tick_range_outcome(self.tick_lower_index, self.tick_upper_index, tick_spacing),
            r is Ok ==> self.wf(tick_spacing as int),
    {
        validate_tick_range(self.tick_lower_index, self.tick_upper_index, tick_spacing)
    }
}

impl UserPosition {
    /// An empty position of `owner` over `[tick_lower, tick_upper)`.
    pub open spec fn opened(
        owner: AccountKey,
        pool_key: AccountKey,
        tick_lower: i32,
        tick_upper: i32,
        now: i64,
    ) -> UserPosition {
        UserPosition {
            owner,
            pool: pool_key,
            position_info: PositionInfo {
                liquidity: 0,
                tick_lower_index: tick_lower,
                tick_upper_index: tick_upper,
                fee_growth_inside_0_last: 0,
                fee_growth_inside_1_last: 0,
                tokens_owed_0: 0,
                tokens_owed_1: 0,
            },
            created_at: now,
            last_updated: now,
        }
    }

    /// Opens an empty position in an open pool over a range legal for its
    /// spacing.
    pub fn open(
        owner: AccountKey,
        pool_key: AccountKey,
        pool: &PoolState,
        tick_lower: i32,
        tick_upper: i32,
        now: i64,
    ) -> (r: Result<UserPosition, ErrorCode>)
        ensures
            pool.is_paused ==> r == Err::<UserPosition, ErrorCode>(ErrorCode::PoolPaused),
            !pool.is_paused ==> match tick_range_outcome(tick_lower, tick_upper, pool.tick_spacing) {
                Err(e) => r == Err::<UserPosition, ErrorCode>(e),
                Ok(()) => r == Ok::<UserPosition, ErrorCode>(
                    UserPosition::opened(owner, pool_key, tick_lower, tick_upper, now),
                ),
            },
            r matches Ok(p) ==> p.position_info.wf(pool.tick_spacing as int),
    {
        check_pool_active(pool)?;
        validate_tick_range(tick_lower, tick_upper, pool.tick_spacing)?;
        Ok(UserPosition {
            owner,
            pool: pool_key,
            position_info: PositionInfo {
                liquidity: 0,
                tick_lower_index: tick_lower,
                tick_upper_index: tick_upper,
                fee_growth_inside_0_last: 0,
                fee_growth_inside_1_last: 0,
                tokens_owed_0: 0,
                tokens_owed_1: 0,
            },
            created_at: now,
            last_updated: now,
        })
    }

    /// Adds `delta` to the position's liquidity; on overflow the position is
    /// left as it was.
    pub fn add_liquidity(&mut self, delta: u128, now: i64) -> (r: Result<(), ErrorCode>)
        ensures
            old(self).position_info.liquidity + delta > u128::MAX ==> r == Err::<(), ErrorCode>(
                ErrorCode::LiquidityOverflow,
            ) && *final(self) == *old(self),
            old(self).position_info.liquidity + delta <= u128::MAX ==> r is Ok && *final(self) == (
            UserPosition {
                position_info: PositionInfo {
                    liquidity: (old(self).position_info.liquidity + delta) as u128,
                    ..old(self).position_info
                },
                last_updated: now,
                ..*old(self)
            }),
    {
        match self.position_info.liquidity.checked_add(delta) {
            Some(v) => {
                self.position_info.liquidity = v;
                self.last_updated = now;
                Ok(())
            },
            None => Err(ErrorCode::LiquidityOverflow),
        }
    }

    /// Takes `delta` from the position's liquidity; where it holds less, the
    /// position is left as it was. Taking all of it closes the position.
    pub fn remove_liquidity(&mut self, delta: u128, now: i64) -> (r: Result<(), ErrorCode>)
        ensures
            delta > old(self).position_info.liquidity ==> r == Err::<(), ErrorCode>(
                ErrorCode::InsufficientLiquidity,
            ) && *final(self) == *old(self),
            delta <= old(self).position_info.liquidity ==> r is Ok && *final(self) == (
            UserPosition {
                position_info: PositionInfo {
                    liquidity: (old(self).position_info.liquidity - delta) as u128,
                    ..old(self).position_info
                },
                last_updated: now,
                ..*old(self)
            }),
    {
        match self.position_info.liquidity.checked_sub(delta) {
            Some(v) => {
                self.position_info.liquidity = v;
                self.last_updated = now;
                Ok(())
            },
            None => Err(ErrorCode::InsufficientLiquidity),
        }
    }

    /// Hands out the tokens owed on both sides and clears them.
    pub fn collect_fees(&mut self, now: i64) -> (r: (u64, u64))
        ensures
            r == (old(self).position_info.tokens_owed_0, old(self).position_info.tokens_owed_1),
            *final(self) == (UserPosition {
                position_info: PositionInfo {
                    tokens_owed_0: 0,
                    tokens_owed_1: 0,
                    ..old(self).position_info
                },
                last_updated: now,
                ..*old(self)
            }),
    {
        let owed = (self.position_info.tokens_owed_0, self.position_info.tokens_owed_1);
        self.position_info.tokens_owed_0 = 0;
        self.position_info.tokens_owed_1 = 0;
        self.last_updated = now;
        owed
    }

    /// The event that reports this position after a change of `kind`.
    pub fn update_event(&self, kind: PositionUpdateKind) -> (r: PositionUpdateEvent)
        ensures
            r == (PositionUpdateEvent {
                owner: self.owner,
                pool: self.pool,
                liquidity: self.position_info.liquidity,
                tick_lower: self.position_info.tick_lower_index,
                tick_upper: self.position_info.tick_upper_index,
                tokens_owed_0: self.position_info.tokens_owed_0,
                tokens_owed_1: self.position_info.tokens_owed_1,
                update_kind: kind,
            }),
    {
        PositionUpdateEvent {
            owner: self.owner,
            pool: self.pool,
            liquidity: self.position_info.liquidity,
            tick_lower: self.position_info.tick_lower_index,
            tick_upper: self.position_info.tick_upper_index,
            tokens_owed_0: self.position_info.tokens_owed_0,
            tokens_owed_1: self.position_info.tokens_owed_1,
            update_kind: kind,
        }
    }
}

} // verus!
