use vstd::prelude::*;

verus! {

/// Every reportable failure kind of the gateway.
#[derive(Clone, Copy, Debug, PartialEq, Eq, Structural)]
pub enum ErrorCode {
    MathOverflow,
    InvalidPoolState,
    PoolPaused,
    InvalidTickSpacing,
    InvalidSqrtPrice,
    InvalidTickRange,
    InsufficientLiquidity,
    LiquidityOverflow,
    InsufficientInput,
    ExcessivePriceImpact,
    SlippageExceeded,
    InvalidFeeRate,
    FeeOverflow,
    InvalidTokenAccountOwner,
    InvalidTokenMint,
    InvalidAuthority,
    MaxTickIndexExceeded,
    MinTickIndexExceeded,
    InvalidPosition,
    PositionNotFound,
    PositionUpdateFailed,
    ObservationStateInvalid,
    TickArrayInvalid,
    PriceLimitReached,
    ZeroLiquidity,
    InsufficientTokenBalance,
    PoolIsPaused,
}

} // verus!
