use vstd::prelude::*;

use crate::config::MINIMUM_LIQUIDITY;
use crate::error::ErrorCode;
use crate::state::PoolState;

verus! {

/// A tick range is legal for a spacing when it is non-empty and both bounds
/// sit on the spacing grid.
pub open spec fn tick_range_ok(lower: int, upper: int, spacing: int) -> bool {
    &&& lower < upper
    &&& lower % spacing == 0
    &&& upper % spacing == 0
}

/// What `validate_tick_range` returns on given inputs.
pub open spec fn tick_range_outcome(lower: i32, upper: i32, spacing: i32) -> Result<(), ErrorCode> {
    if spacing <= 0 {
        Err(ErrorCode::InvalidTickSpacing)
    } else if tick_range_ok(lower as int, upper as int, spacing as int) {
        Ok(())
    } else {
        Err(ErrorCode::InvalidTickRange)
    }
}

/// Checks that `[lower, upper)` is a legal range on a grid of `spacing`.
/// A non-positive spacing is a configuration error of its own.
pub fn validate_tick_range(lower: i32, upper: i32, spacing: i32) -> (r: Result<(), ErrorCode>)
    ensures
        r == tick_range_outcome(lower, upper, spacing),
{
    if spacing <= 0 {
        return Err(ErrorCode::InvalidTickSpacing);
    }
    if lower >= upper {
        return Err(ErrorCode::InvalidTickRange);
    }
    let lower_off = lower.checked_rem_euclid(spacing);
    let upper_off = upper.checked_rem_euclid(spacing);
    match (lower_off, upper_off) {
        (Some(0), Some(0)) => Ok(()),
        _ => Err(ErrorCode::InvalidTickRange),
    }
}

/// For a positive spacing, a range passes exactly when it is non-empty and
/// both bounds are multiples of the spacing.
pub proof fn lemma_tick_range_characterized(lower: i32, upper: i32, spacing: i32)
    requires
        spacing > 0,
    ensures
        tick_range_outcome(lower, upper, spacing) is Ok <==> (lower < upper && lower % spacing == 0
            && upper % spacing == 0),
{
}

/// The tick check is a function of its inputs: two runs on the same inputs
/// give the same result.
pub proof fn lemma_tick_range_deterministic(
    lower: i32,
    upper: i32,
    spacing: i32,
    first: Result<(), ErrorCode>,
    second: Result<(), ErrorCode>,
)
    requires
        first == tick_range_outcome(lower, upper, spacing),
        second == tick_range_outcome(lower, upper, spacing),
    ensures
        first == second,
{
}

/// Fails with `PoolPaused` exactly when the pool is paused.
pub fn check_pool_active(pool: &PoolState) -> (r: Result<(), ErrorCode>)
    ensures
        pool.is_paused ==> r == Err::<(), ErrorCode>(ErrorCode::PoolPaused),
        !pool.is_paused ==> r is Ok,
{
    if pool.is_paused {
        Err(ErrorCode::PoolPaused)
    } else {
        Ok(())
    }
}

/// Fails with `InsufficientInput` exactly when `amount` is zero.
pub fn check_nonzero_input(amount: u64) -> (r: Result<(), ErrorCode>)
    ensures
        amount == 0 ==> r == Err::<(), ErrorCode>(ErrorCode::InsufficientInput),
        amount != 0 ==> r is Ok,
{
    if amount == 0 {
        Err(ErrorCode::InsufficientInput)
    } else {
        Ok(())
    }
}

/// Fails with `InsufficientLiquidity` exactly when `liquidity` is below the
/// venue's minimum.
pub fn check_minimum_liquidity(liquidity: u128) -> (r: Result<(), ErrorCode>)
    ensures
        liquidity < MINIMUM_LIQUIDITY ==> r == Err::<(), ErrorCode>(
            ErrorCode::InsufficientLiquidity,
        ),
        liquidity >= MINIMUM_LIQUIDITY ==> r is Ok,
{
    if liquidity < MINIMUM_LIQUIDITY {
        Err(ErrorCode::InsufficientLiquidity)
    } else {
        Ok(())
    }
}

} // verus!
