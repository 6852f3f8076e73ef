use vstd::prelude::*;

use crate::config::MAX_PRICE_IMPACT;
use crate::encoding::{bool_byte, le_bytes, push_bool, push_le};
use crate::error::ErrorCode;
use crate::risk::{calculate_price_impact, price_impact_outcome};
use crate::state::{AccountKey, PoolState};
use crate::validation::{check_nonzero_input, check_pool_active};

verus! {

/// What a caller asks of the execution engine: an amount, the least it will
/// accept on the other side, a sqrt-price bound, and whether `amount` is the
/// input side.
#[derive(Clone, Copy, Debug, PartialEq, Eq, Structural)]
pub struct SwapV2Params {
    pub amount: u64,
    pub other_amount_threshold: u64,
    pub sqrt_price_limit_x64: u128,
    pub is_base_input: bool,
}

/// The accounts a swap names, in the engine's calling order, with the pool's
/// record and the engine program the call goes to.
#[derive(Clone, Copy, Debug, PartialEq, Eq)]
pub struct SwapV2 {
    pub payer: AccountKey,
    pub amm_config: AccountKey,
    pub pool_state: AccountKey,
    pub pool: PoolState,
    pub input_token_account: AccountKey,
    pub output_token_account: AccountKey,
    pub input_vault: AccountKey,
    pub output_vault: AccountKey,
    pub observation_state: AccountKey,
    pub token_program: AccountKey,
    pub token_program_2022: AccountKey,
    pub memo_program: AccountKey,
    pub input_vault_mint: AccountKey,
    pub output_vault_mint: AccountKey,
    pub engine_program: AccountKey,
}

/// One account reference of an engine call.
#[derive(Clone, Copy, Debug, PartialEq, Eq)]
pub struct AccountRef {
    pub key: AccountKey,
    pub is_signer: bool,
    pub is_writable: bool,
}

/// A call into the execution engine: the program, its accounts in order, and
/// the serialized payload.
#[derive(Clone, Debug, PartialEq, Eq)]
pub struct EngineInstruction {
    pub program_id: AccountKey,
    pub accounts: Vec<AccountRef>,
    pub data: Vec<u8>,
}

/// Emitted once the engine has carried out an admitted swap.
#[derive(Clone, Copy, Debug, PartialEq, Eq)]
pub struct SwapEvent {
    pub pool_id: AccountKey,
    pub amount_in: u64,
    pub amount_out_min: u64,
    pub price_impact: u64,
    pub sqrt_price_limit: u128,
}

/// An admitted swap: the one engine call to make, and the event to emit if
/// that call succeeds.
#[derive(Clone, Debug, PartialEq, Eq)]
pub struct SwapCall {
    pub instruction: EngineInstruction,
    pub event: SwapEvent,
}

/// The admission decision: pause first, then a zero amount, then the price
/// impact against the venue ceiling. `Ok` carries the impact in basis points.
pub open spec fn swap_admission(pool: PoolState, params: SwapV2Params) -> Result<u64, ErrorCode> {
    if pool.is_paused {
        Err(ErrorCode::PoolPaused)
    } else if params.amount == 0 {
        Err(ErrorCode::InsufficientInput)
    } else {
        match price_impact_outcome(
            params.amount,
            params.other_amount_threshold,
            pool.current_sqrt_price,
        ) {
            Err(e) => Err(e),
            Ok(bps) => if bps > MAX_PRICE_IMPACT {
                Err(ErrorCode::ExcessivePriceImpact)
            } else {
                Ok(bps)
            },
        }
    }
}

/// The engine payload: amount, threshold, sqrt-price limit and flag, each
/// little-endian, in that order.
pub open spec fn swap_params_bytes(params: SwapV2Params) -> Seq<u8> {
    le_bytes(params.amount as nat, 8) + le_bytes(params.other_amount_threshold as nat, 8)
        + le_bytes(params.sqrt_price_limit_x64 as nat, 16) + seq![bool_byte(params.is_base_input)]
}

pub open spec fn account_ref(key: AccountKey, is_signer: bool, is_writable: bool) -> AccountRef {
    AccountRef { key, is_signer, is_writable }
}

/// The engine's account list for a swap. The payer signs; the pool, the two
/// user token accounts, the two vaults and the observation are writable.
pub open spec fn swap_account_refs(ctx: SwapV2) -> Seq<AccountRef> {
    seq![
        account_ref(ctx.payer, true, false),
        account_ref(ctx.amm_config, false, false),
        account_ref(ctx.pool_state, false, true),
        account_ref(ctx.input_token_account, false, true),
        account_ref(ctx.output_token_account, false, true),
        account_ref(ctx.input_vault, false, true),
        account_ref(ctx.output_vault, false, true),
        account_ref(ctx.observation_state, false, true),
        account_ref(ctx.token_program, false, false),
        account_ref(ctx.token_program_2022, false, false),
        account_ref(ctx.memo_program, false, false),
        account_ref(ctx.input_vault_mint, false, false),
        account_ref(ctx.output_vault_mint, false, false),
    ]
}

/// The event that an engine success on `params` emits.
pub open spec fn swap_event(pool: PoolState, params: SwapV2Params, bps: u64) -> SwapEvent {
    SwapEvent {
        pool_id: pool.pool_id,
        amount_in: params.amount,
        amount_out_min: params.other_amount_threshold,
        price_impact: bps,
        sqrt_price_limit: params.sqrt_price_limit_x64,
    }
}

/// Runs the admission gate on a swap request and returns its price impact.
pub fn admit_swap(pool: &PoolState, params: &SwapV2Params) -> (r: Result<u64, ErrorCode>)
    ensures
        r == swap_admission(*pool, *params),
{
    check_pool_active(pool)?;
    check_nonzero_input(params.amount)?;
    let bps = calculate_price_impact(
        params.amount,
        params.other_amount_threshold,
        pool.current_sqrt_price,
    )?;
    if bps > MAX_PRICE_IMPACT {
        return Err(ErrorCode::ExcessivePriceImpact);
    }
    Ok(bps)
}

/// Serializes the swap payload for the engine.
pub fn encode_swap_params(params: &SwapV2Params) -> (r: Vec<u8>)
    ensures
        r@ == swap_params_bytes(*params),
        r@.len() == 33,
{
    let mut out: Vec<u8> = Vec::new();
    push_le(&mut out, params.amount as u128, 8);
    push_le(&mut out, params.other_amount_threshold as u128, 8);
    push_le(&mut out, params.sqrt_price_limit_x64, 16);
    push_bool(&mut out, params.is_base_input);
    proof {
        lemma_le_bytes_len(params.amount as nat, 8);
        lemma_le_bytes_len(params.other_amount_threshold as nat, 8);
        lemma_le_bytes_len(params.sqrt_price_limit_x64 as nat, 16);
    }
    out
}

proof fn lemma_le_bytes_len(x: nat, n: nat)
    ensures
        le_bytes(x, n).len() == n,
    decreases n,
{
    if n > 0 {
        lemma_le_bytes_len(x / 256, (n - 1) as nat);
    }
}

fn meta(key: AccountKey, is_signer: bool, is_writable: bool) -> (r: AccountRef)
    ensures
        r == account_ref(key, is_signer, is_writable),
{
    AccountRef { key, is_signer, is_writable }
}

/// Lists the accounts of a swap in the engine's calling order.
pub fn swap_accounts(ctx: &SwapV2) -> (r: Vec<AccountRef>)
    ensures
        r@ == swap_account_refs(*ctx),
{
    let r = vec![
        meta(ctx.payer, true, false),
        meta(ctx.amm_config, false, false),
        meta(ctx.pool_state, false, true),
        meta(ctx.input_token_account, false, true),
        meta(ctx.output_token_account, false, true),
        meta(ctx.input_vault, false, true),
        meta(ctx.output_vault, false, true),
        meta(ctx.observation_state, false, true),
        meta(ctx.token_program, false, false),
        meta(ctx.token_program_2022, false, false),
        meta(ctx.memo_program, false, false),
        meta(ctx.input_vault_mint, false, false),
        meta(ctx.output_vault_mint, false, false),
    ];
    assert(r@ =~= swap_account_refs(*ctx));
    r
}

/// Decides a swap request. On admission it returns the single engine call to
/// make, carrying the caller's parameters unchanged, and the event to emit if
/// that call succeeds; on rejection it returns the first failing check's
/// kind and nothing is to be called or emitted.
pub fn swap_v2(ctx: &SwapV2, params: SwapV2Params) -> (r: Result<SwapCall, ErrorCode>)
    ensures
        match swap_admission(ctx.pool, params) {
            Err(e) => r == Err::<SwapCall, ErrorCode>(e),
            Ok(bps) => r matches Ok(call) && {
                &&& call.instruction.program_id == ctx.engine_program
                &&& call.instruction.accounts@ == swap_account_refs(*ctx)
                &&& call.instruction.data@ == swap_params_bytes(params)
                &&& call.event == swap_event(ctx.pool, params, bps)
            },
        },
{
    let bps = admit_swap(&ctx.pool, &params)?;
    let instruction = EngineInstruction {
        program_id: ctx.engine_program,
        accounts: swap_accounts(ctx),
        data: encode_swap_params(&params),
    };
    let event = SwapEvent {
        pool_id: ctx.pool.pool_id,
        amount_in: params.amount,
        amount_out_min: params.other_amount_threshold,
        price_impact: bps,
        sqrt_price_limit: params.sqrt_price_limit_x64,
    };
    Ok(SwapCall { instruction, event })
}

/// Settles an admitted swap on the engine's answer: the event on success, the
/// engine's failure unchanged otherwise.
pub fn finish_swap<F>(call: SwapCall, engine_result: Result<(), F>) -> (r: Result<SwapEvent, F>)
    ensures
        engine_result is Ok ==> r == Ok::<SwapEvent, F>(call.event),
        engine_result matches Err(f) ==> r == Err::<SwapEvent, F>(f),
{
    match engine_result {
        Ok(()) => Ok(call.event),
        Err(f) => Err(f),
    }
}

/// A request for nothing is refused as such by an open pool, before any
/// price estimate.
pub proof fn lemma_zero_amount_rejected(pool: PoolState, params: SwapV2Params)
    requires
        !pool.is_paused,
        params.amount == 0,
    ensures
        swap_admission(pool, params) == Err::<u64, ErrorCode>(ErrorCode::InsufficientInput),
{
}

/// A paused pool refuses every swap request as paused, whatever its amount
/// and price.
pub proof fn lemma_paused_pool_rejected(pool: PoolState, params: SwapV2Params)
    requires
        pool.is_paused,
    ensures
        swap_admission(pool, params) == Err::<u64, ErrorCode>(ErrorCode::PoolPaused),
{
}

} // verus!
