use clmm_trading_new::{
    admit_swap, encode_swap_params, finish_swap, swap_accounts, swap_v2, AccountKey, AccountRef,
    EngineInstruction, ErrorCode, PoolState, SwapEvent, SwapV2, SwapV2Params, MAX_PRICE_IMPACT,
};

const ONE_X64: u128 = 1u128 << 64;

fn key(n: u8) -> AccountKey {
    AccountKey { bytes: [n; 32] }
}

fn pool_at_unit_price() -> PoolState {
    let mut pool = PoolState::default();
    pool.tick_spacing = 60;
    pool.current_sqrt_price = ONE_X64;
    pool.liquidity = 5_000_000;
    pool.pool_id = key(77);
    pool
}

fn context(pool: PoolState) -> SwapV2 {
    SwapV2 {
        payer: key(1),
        amm_config: key(2),
        pool_state: key(3),
        pool,
        input_token_account: key(4),
        output_token_account: key(5),
        input_vault: key(6),
        output_vault: key(7),
        observation_state: key(8),
        token_program: key(9),
        token_program_2022: key(10),
        memo_program: key(11),
        input_vault_mint: key(12),
        output_vault_mint: key(13),
        engine_program: key(99),
    }
}

fn params(amount: u64, threshold: u64) -> SwapV2Params {
    SwapV2Params {
        amount,
        other_amount_threshold: threshold,
        sqrt_price_limit_x64: 0x0102_0304_0506_0708_090a_0b0c_0d0e_0f10,
        is_base_input: true,
    }
}

/// A stand-in for the execution engine that counts the calls it receives.
struct MockEngine {
    calls: usize,
    fail_with: Option<u32>,
    last: Option<EngineInstruction>,
}

impl MockEngine {
    fn new(fail_with: Option<u32>) -> MockEngine {
        MockEngine { calls: 0, fail_with, last: None }
    }

    fn invoke(&mut self, ix: &EngineInstruction) -> Result<(), u32> {
        self.calls += 1;
        self.last = Some(ix.clone());
        match self.fail_with {
            Some(code) => Err(code),
            None => Ok(()),
        }
    }
}

#[derive(Debug, PartialEq)]
enum Outcome {
    Rejected(ErrorCode),
    EngineFailed(u32),
}

fn run(ctx: &SwapV2, p: SwapV2Params, engine: &mut MockEngine) -> Result<SwapEvent, Outcome> {
    let call = swap_v2(ctx, p).map_err(Outcome::Rejected)?;
    let answer = engine.invoke(&call.instruction);
    finish_swap(call, answer).map_err(Outcome::EngineFailed)
}

#[test]
fn admitted_swap_at_one_percent_impact() {
    let ctx = context(pool_at_unit_price());
    let mut engine = MockEngine::new(None);
    let event = run(&ctx, params(1000, 990), &mut engine).unwrap();
    assert_eq!(engine.calls, 1);
    assert_eq!(
        event,
        SwapEvent {
            pool_id: key(77),
            amount_in: 1000,
            amount_out_min: 990,
            price_impact: 100,
            sqrt_price_limit: 0x0102_0304_0506_0708_090a_0b0c_0d0e_0f10,
        }
    );
    let ix = engine.last.unwrap();
    assert_eq!(ix.program_id, key(99));
    assert_eq!(ix.accounts.len(), 13);
    assert_eq!(ix.data, encode_swap_params(&params(1000, 990)));
}

#[test]
fn excessive_impact_rejected_without_call() {
    let ctx = context(pool_at_unit_price());
    let mut engine = MockEngine::new(None);
    let r = run(&ctx, params(1000, 850), &mut engine);
    assert_eq!(r, Err(Outcome::Rejected(ErrorCode::ExcessivePriceImpact)));
    assert_eq!(engine.calls, 0);
}

#[test]
fn impact_at_ceiling_is_admitted() {
    let pool = pool_at_unit_price();
    assert_eq!(admit_swap(&pool, &params(1000, 900)), Ok(MAX_PRICE_IMPACT));
    assert_eq!(admit_swap(&pool, &params(1000, 899)), Err(ErrorCode::ExcessivePriceImpact));
}

#[test]
fn zero_amount_rejected_without_call() {
    let ctx = context(pool_at_unit_price());
    let mut engine = MockEngine::new(None);
    let r = run(&ctx, params(0, 0), &mut engine);
    assert_eq!(r, Err(Outcome::Rejected(ErrorCode::InsufficientInput)));
    assert_eq!(engine.calls, 0);
}

#[test]
fn paused_pool_rejects_any_request_and_stays_unchanged() {
    let mut pool = pool_at_unit_price();
    pool.is_paused = true;
    let ctx = context(pool);
    let mut engine = MockEngine::new(None);
    for p in [params(1000, 990), params(0, 0), params(1000, 850), params(u64::MAX, 0)] {
        assert_eq!(run(&ctx, p, &mut engine), Err(Outcome::Rejected(ErrorCode::PoolPaused)));
    }
    assert_eq!(engine.calls, 0);
    assert_eq!(ctx.pool, pool);
}

#[test]
fn pause_checked_before_amount() {
    let mut pool = pool_at_unit_price();
    pool.is_paused = true;
    assert_eq!(admit_swap(&pool, &params(0, 0)), Err(ErrorCode::PoolPaused));
}

#[test]
fn overflowing_estimate_rejects_swap() {
    let mut pool = pool_at_unit_price();
    pool.current_sqrt_price = u128::MAX;
    assert_eq!(admit_swap(&pool, &params(2, 1)), Err(ErrorCode::MathOverflow));
}

#[test]
fn threshold_above_amount_rejects_swap() {
    let pool = pool_at_unit_price();
    assert_eq!(admit_swap(&pool, &params(1000, 1001)), Err(ErrorCode::MathOverflow));
}

#[test]
fn engine_failure_propagates_without_event() {
    let ctx = context(pool_at_unit_price());
    let mut engine = MockEngine::new(Some(6022));
    let r = run(&ctx, params(1000, 990), &mut engine);
    assert_eq!(r, Err(Outcome::EngineFailed(6022)));
    assert_eq!(engine.calls, 1);
}

#[test]
fn payload_is_little_endian_in_field_order() {
    let p = SwapV2Params {
        amount: 1000,
        other_amount_threshold: 990,
        sqrt_price_limit_x64: 0x0102_0304_0506_0708_090a_0b0c_0d0e_0f10,
        is_base_input: true,
    };
    let mut expected = Vec::new();
    expected.extend_from_slice(&1000u64.to_le_bytes());
    expected.extend_from_slice(&990u64.to_le_bytes());
    expected.extend_from_slice(&0x0102_0304_0506_0708_090a_0b0c_0d0e_0f10u128.to_le_bytes());
    expected.push(1);
    assert_eq!(encode_swap_params(&p), expected);
    assert_eq!(&expected[0..2], &[0xe8, 0x03]);

    let q = SwapV2Params { is_base_input: false, ..p };
    let bytes = encode_swap_params(&q);
    assert_eq!(bytes.len(), 33);
    assert_eq!(bytes[32], 0);
    assert_eq!(bytes[16], 0x10);
    assert_eq!(bytes[31], 0x01);
}

#[test]
fn accounts_in_engine_order() {
    let ctx = context(pool_at_unit_price());
    let accounts = swap_accounts(&ctx);
    let expected: Vec<AccountRef> = vec![
        AccountRef { key: key(1), is_signer: true, is_writable: false },
        AccountRef { key: key(2), is_signer: false, is_writable: false },
        AccountRef { key: key(3), is_signer: false, is_writable: true },
        AccountRef { key: key(4), is_signer: false, is_writable: true },
        AccountRef { key: key(5), is_signer: false, is_writable: true },
        AccountRef { key: key(6), is_signer: false, is_writable: true },
        AccountRef { key: key(7), is_signer: false, is_writable: true },
        AccountRef { key: key(8), is_signer: false, is_writable: true },
        AccountRef { key: key(9), is_signer: false, is_writable: false },
        AccountRef { key: key(10), is_signer: false, is_writable: false },
        AccountRef { key: key(11), is_signer: false, is_writable: false },
        AccountRef { key: key(12), is_signer: false, is_writable: false },
        AccountRef { key: key(13), is_signer: false, is_writable: false },
    ];
    assert_eq!(accounts, expected);
}
