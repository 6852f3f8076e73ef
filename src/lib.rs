//! Admission gateway in front of a concentrated-liquidity execution engine:
//! pool and position records, the validation gate, the price-impact estimate,
//! and the swap and liquidity routers that decide whether a request may be
//! forwarded.

pub mod config;
pub mod encoding;
pub mod error;
pub mod liquidity;
pub mod position;
pub mod risk;
pub mod state;
pub mod swap;
pub mod validation;

pub use config::{DEFAULT_SLIPPAGE_TOLERANCE, MAX_PRICE_IMPACT, MAX_ROUTE_HOPS, MINIMUM_LIQUIDITY};
pub use error::ErrorCode;
pub use liquidity::{
    admit_liquidity_change, LiquidityAddedEvent, LiquidityChange, LiquidityChangeKind,
    LiquidityEvent, LiquidityRemovedEvent,
};
pub use position::{PositionInfo, PositionUpdateEvent, PositionUpdateKind, UserPosition};
pub use risk::calculate_price_impact;
pub use state::{AccountKey, InitializePool, PoolConfig, PoolState, PoolUpdateEvent};
pub use swap::{
    admit_swap, encode_swap_params, finish_swap, swap_accounts, swap_v2, AccountRef,
    EngineInstruction, SwapCall, SwapEvent, SwapV2, SwapV2Params,
};
pub use validation::{
    check_minimum_liquidity, check_nonzero_input, check_pool_active, validate_tick_range,
};
