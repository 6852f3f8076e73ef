use clmm_trading_new::{
    AccountKey, ErrorCode, InitializePool, PoolConfig, PoolState, PoolUpdateEvent,
    PositionUpdateKind, UserPosition,
};

fn key(n: u8) -> AccountKey {
    AccountKey { bytes: [n; 32] }
}

fn accounts() -> InitializePool {
    InitializePool {
        authority: key(1),
        pool_state: key(2),
        token_mint_0: key(3),
        token_mint_1: key(4),
        token_vault_0: key(5),
        token_vault_1: key(6),
        observation_state: key(7),
    }
}

fn config(tick_spacing: i32, initial_sqrt_price: u128) -> PoolConfig {
    PoolConfig {
        tick_spacing,
        tick_spacing_seed: 60,
        fee_rate: 2500,
        initial_sqrt_price,
        initial_tick_index: 0,
    }
}

#[test]
fn initialize_creates_open_empty_pool() {
    let pool = PoolState::initialize(&accounts(), &config(60, 1u128 << 64), 1_700_000_000).unwrap();
    assert_eq!(pool.pool_id, key(2));
    assert_eq!(pool.authority, key(1));
    assert_eq!(pool.token_mint_0, key(3));
    assert_eq!(pool.token_vault_1, key(6));
    assert_eq!(pool.observation_key, key(7));
    assert_eq!(pool.tick_spacing, 60);
    assert_eq!(pool.fee_rate, 2500);
    assert_eq!(pool.current_sqrt_price, 1u128 << 64);
    assert_eq!(pool.liquidity, 0);
    assert_eq!(pool.fee_growth_global_0, 0);
    assert!(!pool.is_paused);
    assert_eq!(pool.last_updated, 1_700_000_000);
}

#[test]
fn initialize_rejects_bad_spacing() {
    assert_eq!(
        PoolState::initialize(&accounts(), &config(0, 1), 0),
        Err(ErrorCode::InvalidTickSpacing)
    );
    assert_eq!(
        PoolState::initialize(&accounts(), &config(-1, 0), 0),
        Err(ErrorCode::InvalidTickSpacing)
    );
}

#[test]
fn initialize_rejects_zero_price() {
    assert_eq!(
        PoolState::initialize(&accounts(), &config(10, 0), 0),
        Err(ErrorCode::InvalidSqrtPrice)
    );
}

#[test]
fn pool_liquidity_checked_add_and_sub() {
    let mut pool = PoolState::initialize(&accounts(), &config(10, 1), 0).unwrap();
    assert_eq!(pool.add_liquidity(500, 1), Ok(()));
    assert_eq!(pool.liquidity, 500);
    assert_eq!(pool.last_updated, 1);
    assert_eq!(pool.remove_liquidity(501, 2), Err(ErrorCode::InsufficientLiquidity));
    assert_eq!(pool.liquidity, 500);
    assert_eq!(pool.last_updated, 1);
    assert_eq!(pool.remove_liquidity(500, 3), Ok(()));
    assert_eq!(pool.liquidity, 0);
    pool.liquidity = u128::MAX;
    let before = pool;
    assert_eq!(pool.add_liquidity(1, 4), Err(ErrorCode::LiquidityOverflow));
    assert_eq!(pool, before);
}

#[test]
fn fee_growth_never_decreases_and_overflow_leaves_pool() {
    let mut pool = PoolState::initialize(&accounts(), &config(10, 1), 0).unwrap();
    assert_eq!(pool.accrue_fee_growth(7, 9, 5), Ok(()));
    assert_eq!((pool.fee_growth_global_0, pool.fee_growth_global_1), (7, 9));
    pool.fee_growth_global_1 = u128::MAX - 1;
    let before = pool;
    assert_eq!(pool.accrue_fee_growth(1, 2, 6), Err(ErrorCode::FeeOverflow));
    assert_eq!(pool, before);
}

#[test]
fn pool_update_event_reports_state() {
    let mut pool = PoolState::initialize(&accounts(), &config(10, 99), 0).unwrap();
    pool.liquidity = 31;
    pool.current_tick_index = -4;
    assert_eq!(
        pool.update_event(),
        PoolUpdateEvent {
            pool_id: key(2),
            sqrt_price: 99,
            tick_index: -4,
            liquidity: 31,
            fee_growth_global_0: 0,
            fee_growth_global_1: 0,
        }
    );
}

#[test]
fn position_open_and_lifecycle() {
    let pool = PoolState::initialize(&accounts(), &config(10, 1), 0).unwrap();
    let mut pos = UserPosition::open(key(9), key(2), &pool, -10, 20, 100).unwrap();
    assert_eq!(pos.position_info.liquidity, 0);
    assert_eq!(pos.position_info.validate(10), Ok(()));
    assert_eq!(pos.created_at, 100);
    assert_eq!(pos.add_liquidity(1000, 101), Ok(()));
    assert_eq!(pos.remove_liquidity(1001, 102), Err(ErrorCode::InsufficientLiquidity));
    assert_eq!(pos.remove_liquidity(1000, 103), Ok(()));
    assert_eq!(pos.position_info.liquidity, 0);
    assert_eq!(pos.last_updated, 103);
    pos.position_info.liquidity = u128::MAX;
    assert_eq!(pos.add_liquidity(1, 104), Err(ErrorCode::LiquidityOverflow));
    pos.position_info.tokens_owed_0 = 3;
    pos.position_info.tokens_owed_1 = 4;
    assert_eq!(pos.collect_fees(105), (3, 4));
    assert_eq!((pos.position_info.tokens_owed_0, pos.position_info.tokens_owed_1), (0, 0));
    let ev = pos.update_event(PositionUpdateKind::FeesCollected);
    assert_eq!(ev.owner, key(9));
    assert_eq!(ev.tick_lower, -10);
    assert_eq!(ev.update_kind, PositionUpdateKind::FeesCollected);
}

#[test]
fn position_open_rejections() {
    let mut pool = PoolState::initialize(&accounts(), &config(10, 1), 0).unwrap();
    assert_eq!(
        UserPosition::open(key(9), key(2), &pool, -15, 20, 0),
        Err(ErrorCode::InvalidTickRange)
    );
    pool.is_paused = true;
    assert_eq!(
        UserPosition::open(key(9), key(2), &pool, -15, 20, 0),
        Err(ErrorCode::PoolPaused)
    );
}
