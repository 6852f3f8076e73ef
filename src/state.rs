use vstd::prelude::*;

use crate::error::ErrorCode;

verus! {

/// The 32-byte address of an account on the ledger.
#[derive(Clone, Copy, Debug, PartialEq, Eq, Default)]
pub struct AccountKey {
    pub bytes: [u8; 32],
}

/// The on-ledger record of one trading pool.
#[derive(Clone, Copy, Debug, PartialEq, Eq, Default)]
pub struct PoolState {
    pub authority: AccountKey,
    pub token_mint_0: AccountKey,
    pub token_mint_1: AccountKey,
    pub tick_spacing: i32,
    pub tick_spacing_seed: u16,
    pub fee_rate: u32,
    pub liquidity: u128,
    pub current_sqrt_price: u128,
    pub current_tick_index: i32,
    pub fee_growth_global_0: u128,
    pub fee_growth_global_1: u128,
    pub fee_protocol_token_0: u64,
    pub fee_protocol_token_1: u64,
    pub token_vault_0: AccountKey,
    pub token_vault_1: AccountKey,
    pub observation_key: AccountKey,
    pub pool_id: AccountKey,
    pub is_paused: bool,
    pub last_updated: i64,
}

/// The accounts that pool initialization names.
#[derive(Clone, Copy, Debug, PartialEq, Eq)]
pub struct InitializePool {
    pub authority: AccountKey,
    pub pool_state: AccountKey,
    pub token_mint_0: AccountKey,
    pub token_mint_1: AccountKey,
    pub token_vault_0: AccountKey,
    pub token_vault_1: AccountKey,
    pub observation_state: AccountKey,
}

/// The settings a pool is created with.
#[derive(Clone, Copy, Debug, PartialEq, Eq, Structural)]
pub struct PoolConfig {
    pub tick_spacing: i32,
    pub tick_spacing_seed: u16,
    pub fee_rate: u32,
    pub initial_sqrt_price: u128,
    pub initial_tick_index: i32,
}

/// Emitted when a pool's market state is observed or changed.
#[derive(Clone, Copy, Debug, PartialEq, Eq)]
pub struct PoolUpdateEvent {
    pub pool_id: AccountKey,
    pub sqrt_price: u128,
    pub tick_index: i32,
    pub liquidity: u128,
    pub fee_growth_global_0: u128,
    pub fee_growth_global_1: u128,
}

impl PoolState {
    /// A live pool has a positive spacing and a positive price.
    pub open spec fn wf(&self) -> bool {
        &&& self.tick_spacing > 0
        &&& self.current_sqrt_price > 0
    }

    /// The pool that `initialize` creates from valid settings.
    pub open spec fn initial(accounts: InitializePool, config: PoolConfig, now: i64) -> PoolState {
        PoolState {
            authority: accounts.authority,
            token_mint_0: accounts.token_mint_0,
            token_mint_1: accounts.token_mint_1,
            tick_spacing: config.tick_spacing,
            tick_spacing_seed: config.tick_spacing_seed,
            fee_rate: config.fee_rate,
            liquidity: 0,
            current_sqrt_price: config.initial_sqrt_price,
            current_tick_index: config.initial_tick_index,
            fee_growth_global_0: 0,
            fee_growth_global_1: 0,
            fee_protocol_token_0: 0,
            fee_protocol_token_1: 0,
            token_vault_0: accounts.token_vault_0,
            token_vault_1: accounts.token_vault_1,
            observation_key: accounts.observation_state,
            pool_id: accounts.pool_state,
            is_paused: false,
            last_updated: now,
        }
    }

    /// Creates a pool record, open for trading and empty of liquidity. The
    /// spacing must be positive and the starting price non-zero.
    pub fn initialize(accounts: &InitializePool, config: &PoolConfig, now: i64) -> (r: Result<
        PoolState,
        ErrorCode,
    >)
        ensures
            config.tick_spacing <= 0 ==> r == Err::<PoolState, ErrorCode>(
                ErrorCode::InvalidTickSpacing,
            ),
            config.tick_spacing > 0 && config.initial_sqrt_price == 0 ==> r == Err::<
                PoolState,
                ErrorCode,
            >(ErrorCode::InvalidSqrtPrice),
            config.tick_spacing > 0 && config.initial_sqrt_price > 0 ==> r == Ok::<
                PoolState,
                ErrorCode,
            >(PoolState::initial(*accounts, *config, now)),
            r matches Ok(pool) ==> pool.wf(),
    {
        if config.tick_spacing <= 0 {
            return Err(ErrorCode::InvalidTickSpacing);
        }
        if config.initial_sqrt_price == 0 {
            return Err(ErrorCode::InvalidSqrtPrice);
        }
        Ok(PoolState {
            authority: accounts.authority,
            token_mint_0: accounts.token_mint_0,
            token_mint_1: accounts.token_mint_1,
            tick_spacing: config.tick_spacing,
            tick_spacing_seed: config.tick_spacing_seed,
            fee_rate: config.fee_rate,
            liquidity: 0,
            current_sqrt_price: config.initial_sqrt_price,
            current_tick_index: config.initial_tick_index,
            fee_growth_global_0: 0,
            fee_growth_global_1: 0,
            fee_protocol_token_0: 0,
            fee_protocol_token_1: 0,
            token_vault_0: accounts.token_vault_0,
            token_vault_1: accounts.token_vault_1,
            observation_key: accounts.observation_state,
            pool_id: accounts.pool_state,
            is_paused: false,
            last_updated: now,
        })
    }

    /// Adds `delta` to the pool's liquidity; on overflow the pool is left as
    /// it was.
    pub fn add_liquidity(&mut self, delta: u128, now: i64) -> (r: Result<(), ErrorCode>)
        ensures
            old(self).liquidity + delta > u128::MAX ==> r == Err::<(), ErrorCode>(
                ErrorCode::LiquidityOverflow,
            ) && *final(self) == *old(self),
            old(self).liquidity + delta <= u128::MAX ==> r is Ok && *final(self) == (PoolState {
                liquidity: (old(self).liquidity + delta) as u128,
                last_updated: now,
                ..*old(self)
            }),
    {
        match self.liquidity.checked_add(delta) {
            Some(v) => {
                self.liquidity = v;
                self.last_updated = now;
                Ok(())
            },
            None => Err(ErrorCode::LiquidityOverflow),
        }
    }

    /// Takes `delta` from the pool's liquidity; where it holds less, the pool
    /// is left as it was.
    pub fn remove_liquidity(&mut self, delta: u128, now: i64) -> (r: Result<(), ErrorCode>)
        ensures
            delta > old(self).liquidity ==> r == Err::<(), ErrorCode>(
                ErrorCode::InsufficientLiquidity,
            ) && *final(self) == *old(self),
            delta <= old(self).liquidity ==> r is Ok && *final(self) == (PoolState {
                liquidity: (old(self).liquidity - delta) as u128,
                last_updated: now,
                ..*old(self)
            }),
    {
        match self.liquidity.checked_sub(delta) {
            Some(v) => {
                self.liquidity = v;
                self.last_updated = now;
                Ok(())
            },
            None => Err(ErrorCode::InsufficientLiquidity),
        }
    }

    /// Adds fee growth to both accumulators, which therefore never decrease;
    /// where either would overflow, the pool is left as it was.
    pub fn accrue_fee_growth(&mut self, growth_0: u128, growth_1: u128, now: i64) -> (r: Result<
        (),
        ErrorCode,
    >)
        ensures
            old(self).fee_growth_global_0 + growth_0 > u128::MAX || old(self).fee_growth_global_1
                + growth_1 > u128::MAX ==> r == Err::<(), ErrorCode>(ErrorCode::FeeOverflow)
                && *final(self) == *old(self),
            old(self).fee_growth_global_0 + growth_0 <= u128::MAX && old(self).fee_growth_global_1
                + growth_1 <= u128::MAX ==> r is Ok && *final(self) == (PoolState {
                fee_growth_global_0: (old(self).fee_growth_global_0 + growth_0) as u128,
                fee_growth_global_1: (old(self).fee_growth_global_1 + growth_1) as u128,
                last_updated: now,
                ..*old(self)
            }),
            final(self).fee_growth_global_0 >= old(self).fee_growth_global_0,
            final(self).fee_growth_global_1 >= old(self).fee_growth_global_1,
    {
        let g0 = match self.fee_growth_global_0.checked_add(growth_0) {
            Some(v) => v,
            None => return Err(ErrorCode::FeeOverflow),
        };
        let g1 = match self.fee_growth_global_1.checked_add(growth_1) {
            Some(v) => v,
            None => return Err(ErrorCode::FeeOverflow),
        };
        self.fee_growth_global_0 = g0;
        self.fee_growth_global_1 = g1;
        self.last_updated = now;
        Ok(())
    }

    /// The event that reports this pool's market state.
    pub fn update_event(&self) -> (r: PoolUpdateEvent)
        ensures
            r == (PoolUpdateEvent {
                pool_id: self.pool_id,
                sqrt_price: self.current_sqrt_price,
                tick_index: self.current_tick_index,
                liquidity: self.liquidity,
                fee_growth_global_0: self.fee_growth_global_0,
                fee_growth_global_1: self.fee_growth_global_1,
            }),
    {
        PoolUpdateEvent {
            pool_id: self.pool_id,
            sqrt_price: self.current_sqrt_price,
            tick_index: self.current_tick_index,
            liquidity: self.liquidity,
            fee_growth_global_0: self.fee_growth_global_0,
            fee_growth_global_1: self.fee_growth_global_1,
        }
    }
}

} // verus!
