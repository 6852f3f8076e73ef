use vstd::prelude::*;

use crate::error::ErrorCode;

verus! {

/// One basis point is a ten-thousandth.
pub const BPS_DENOMINATOR: u128 = 10000;

/// The estimate in exact arithmetic: the shortfall of the minimum output
/// against the ideal output at `price`, in basis points of the ideal output,
/// rounded down. `None` where a step leaves its machine type: a product over
/// 128 bits, a minimum above the ideal, a zero ideal, or a result over 64 bits.
pub open spec fn price_impact_value(amount_in: int, amount_out_min: int, price: int) -> Option<int> {
    let ideal = amount_in * price;
    let actual = amount_out_min * price;
    if ideal > u128::MAX || actual > u128::MAX || actual > ideal {
        None
    } else if (ideal - actual) * 10000 > u128::MAX || ideal == 0 {
        None
    } else if (ideal - actual) * 10000 / ideal > u64::MAX {
        None
    } else {
        Some((ideal - actual) * 10000 / ideal)
    }
}

/// What `calculate_price_impact` returns on given inputs.
pub open spec fn price_impact_outcome(amount_in: u64, amount_out_min: u64, price: u128) -> Result<
    u64,
    ErrorCode,
> {
    match price_impact_value(amount_in as int, amount_out_min as int, price as int) {
        Some(v) => Ok(v as u64),
        None => Err(ErrorCode::MathOverflow),
    }
}

/// Advisory price impact, in basis points, of trading `amount_in` for at
/// least `amount_out_min` at the observed `current_sqrt_price`, which stands
/// in linearly for the price. Every step is checked; any step out of range
/// fails with `MathOverflow`.
pub fn calculate_price_impact(amount_in: u64, amount_out_min: u64, current_sqrt_price: u128) -> (r:
    Result<u64, ErrorCode>)
    ensures
        r == price_impact_outcome(amount_in, amount_out_min, current_sqrt_price),
{
    let ideal_out = match (amount_in as u128).checked_mul(current_sqrt_price) {
        Some(v) => v,
        None => return Err(ErrorCode::MathOverflow),
    };
    let actual_out = match (amount_out_min as u128).checked_mul(current_sqrt_price) {
        Some(v) => v,
        None => return Err(ErrorCode::MathOverflow),
    };
    let shortfall = match ideal_out.checked_sub(actual_out) {
        Some(v) => v,
        None => return Err(ErrorCode::MathOverflow),
    };
    let scaled = match shortfall.checked_mul(BPS_DENOMINATOR) {
        Some(v) => v,
        None => return Err(ErrorCode::MathOverflow),
    };
    let impact = match scaled.checked_div(ideal_out) {
        Some(v) => v,
        None => return Err(ErrorCode::MathOverflow),
    };
    if impact > u64::MAX as u128 {
        return Err(ErrorCode::MathOverflow);
    }
    Ok(impact as u64)
}

/// Lowering the minimum output, with the amount and the price held fixed,
/// never lowers the estimate, wherever both estimates are defined.
pub proof fn lemma_price_impact_monotonic(
    amount_in: u64,
    lower_min: u64,
    higher_min: u64,
    price: u128,
)
    requires
        amount_in * price <= u128::MAX,
        lower_min <= higher_min,
        price_impact_outcome(amount_in, lower_min, price) is Ok,
        price_impact_outcome(amount_in, higher_min, price) is Ok,
    ensures
        price_impact_outcome(amount_in, lower_min, price)->Ok_0 >= price_impact_outcome(
            amount_in,
            higher_min,
            price,
        )->Ok_0,
{
    let ideal = amount_in * price;
    let lo = lower_min * price;
    let hi = higher_min * price;
    assert(lo <= hi) by (nonlinear_arith)
        requires
            lower_min <= higher_min,
            lo == lower_min * price,
            hi == higher_min * price,
            price >= 0,
    ;
    assert((ideal - hi) * 10000 <= (ideal - lo) * 10000) by (nonlinear_arith)
        requires
            lo <= hi,
    ;
    vstd::arithmetic::div_mod::lemma_div_is_ordered(
        (ideal - hi) * 10000,
        (ideal - lo) * 10000,
        ideal,
    );
}

/// A minimum output worth exactly the ideal output has zero impact, wherever
/// the ideal output is a positive 128-bit value.
pub proof fn lemma_price_impact_zero_at_ideal(amount_in: u64, amount_out_min: u64, price: u128)
    requires
        amount_in * price <= u128::MAX,
        amount_in * price > 0,
        amount_out_min * price == amount_in * price,
    ensures
        price_impact_outcome(amount_in, amount_out_min, price) == Ok::<u64, ErrorCode>(0),
{
}

/// The estimate never wraps: a product over 128 bits, a minimum output worth
/// more than the ideal output, or a scaled shortfall over 128 bits fails with
/// `MathOverflow`, and a success is the basis-point shortfall rounded down,
/// not a truncated value.
pub proof fn lemma_price_impact_checked(amount_in: u64, amount_out_min: u64, price: u128)
    ensures
        ({
            let ideal = amount_in * price;
            let actual = amount_out_min * price;
            ideal > u128::MAX || actual > u128::MAX || actual > ideal || (ideal - actual) * 10000
                > u128::MAX || ideal == 0
        }) ==> price_impact_outcome(amount_in, amount_out_min, price) == Err::<u64, ErrorCode>(
            ErrorCode::MathOverflow,
        ),
        price_impact_outcome(amount_in, amount_out_min, price) matches Ok(v) ==> {
            let ideal = amount_in * price;
            let shortfall = (ideal - amount_out_min * price) * 10000;
            &&& v * ideal <= shortfall
            &&& shortfall < (v + 1) * ideal
        },
{
    let ideal = amount_in * price;
    let actual = amount_out_min * price;
    if price_impact_outcome(amount_in, amount_out_min, price) is Ok {
        let shortfall = (ideal - actual) * 10000;
        vstd::arithmetic::div_mod::lemma_fundamental_div_mod(shortfall, ideal);
        vstd::arithmetic::div_mod::lemma_mod_pos_bound(shortfall, ideal);
        assert((shortfall / ideal) * ideal <= shortfall < (shortfall / ideal + 1) * ideal)
            by (nonlinear_arith)
            requires
                shortfall == ideal * (shortfall / ideal) + shortfall % ideal,
                0 <= shortfall % ideal < ideal,
        ;
    }
}

/// The estimate is a function of its inputs: two runs on the same inputs
/// give the same result.
pub proof fn lemma_price_impact_deterministic(
    amount_in: u64,
    amount_out_min: u64,
    price: u128,
    first: Result<u64, ErrorCode>,
    second: Result<u64, ErrorCode>,
)
    requires
        first == price_impact_outcome(amount_in, amount_out_min, price),
        second == price_impact_outcome(amount_in, amount_out_min, price),
    ensures
        first == second,
{
}

} // verus!
