//! The pricing engine: pure constant-product curve arithmetic.
//!
//! Both operations work on three unsigned magnitudes expressed in one common
//! denomination: the reserve on the side the trader pays into
//! (`input_reserve`), the reserve on the side the trader receives from
//! (`output_reserve`), and a trade amount. A proportional fee of
//! `FEE_DENOMINATOR - FEE_NUMERATOR` parts per `FEE_DENOMINATOR` (0.3%) is
//! taken from the input before the curve is applied. Rounding always favors
//! the pool: a fixed-input trade rounds the payout down, a fixed-output trade
//! rounds the charge up.

use vstd::prelude::*;
use crate::errors::Error;

verus! {

/// Fee-adjusted share of the input that reaches the curve: 997 of 1000.
pub const FEE_NUMERATOR: u128 = 997;

/// Denominator of the proportional fee: the input is scaled by 997/1000.
pub const FEE_DENOMINATOR: u128 = 1000;

/// True when every intermediate value of the fixed-input computation fits in
/// the integer width: the fee-adjusted input, the curve numerator, and the
/// curve denominator.
pub open spec fn input_price_fits(amount_in: int, input_reserve: int, output_reserve: int) -> bool {
    &&& amount_in * FEE_NUMERATOR <= u128::MAX
    &&& amount_in * FEE_NUMERATOR * output_reserve <= u128::MAX
    &&& input_reserve * FEE_DENOMINATOR + amount_in * FEE_NUMERATOR <= u128::MAX
}

/// Amount received for a fixed input: the curve quotient, truncated toward
/// zero so the trader is never overpaid. A pool degenerate on both counts
/// (no input reserve and no fee-adjusted input) quotes zero.
pub open spec fn spec_input_price(amount_in: int, input_reserve: int, output_reserve: int) -> int {
    let adjusted = amount_in * FEE_NUMERATOR;
    let denominator = input_reserve * FEE_DENOMINATOR + adjusted;
    if denominator == 0 {
        0
    } else {
        (adjusted * output_reserve) / denominator
    }
}

/// True when every intermediate value of the fixed-output computation fits in
/// the integer width. Meaningful for `amount_out < output_reserve`.
pub open spec fn output_price_fits(amount_out: int, input_reserve: int, output_reserve: int) -> bool {
    &&& input_reserve * amount_out <= u128::MAX
    &&& input_reserve * amount_out * FEE_DENOMINATOR <= u128::MAX
    &&& (output_reserve - amount_out) * FEE_NUMERATOR <= u128::MAX
}

/// Amount to pay for a fixed output: the inverse curve quotient rounded up
/// (floor plus one) so the pool is never under-charged. Meaningful for
/// `amount_out < output_reserve`, where the divisor is positive.
pub open spec fn spec_output_price(amount_out: int, input_reserve: int, output_reserve: int) -> int {
    (input_reserve * amount_out * FEE_DENOMINATOR) / ((output_reserve - amount_out) * FEE_NUMERATOR)
        + 1
}

/// "I pay `amount_in`; how much do I receive?"
///
/// Applies the fee to the input, then the constant-product curve:
/// `adjusted = amount_in * 997`, and the result is
/// `adjusted * output_reserve / (input_reserve * 1000 + adjusted)`, truncated
/// toward zero. Fails with `Overflow` exactly when one of those intermediate
/// values exceeds `u128::MAX`. No liquidity check is needed: the result
/// always stays below `output_reserve` when the input reserve is non-empty.
pub fn compute_input_price(amount_in: u128, input_reserve: u128, output_reserve: u128) -> (r: Result<
    u128,
    Error,
>)
    ensures
        r is Ok <==> input_price_fits(
            amount_in as int,
            input_reserve as int,
            output_reserve as int,
        ),
        r is Ok ==> r->Ok_0 as int == spec_input_price(
            amount_in as int,
            input_reserve as int,
            output_reserve as int,
        ),
        r is Err ==> r->Err_0 == Error::Overflow,
{
    let adjusted = match amount_in.checked_mul(FEE_NUMERATOR) {
        Some(v) => v,
        None => { return Err(Error::Overflow); },
    };
    let numerator = match adjusted.checked_mul(output_reserve) {
        Some(v) => v,
        None => { return Err(Error::Overflow); },
    };
    let scaled_reserve = match input_reserve.checked_mul(FEE_DENOMINATOR) {
        Some(v) => v,
        None => { return Err(Error::Overflow); },
    };
    let denominator = match scaled_reserve.checked_add(adjusted) {
        Some(v) => v,
        None => { return Err(Error::Overflow); },
    };
    if denominator == 0 {
        Ok(0)
    } else {
        Ok(numerator / denominator)
    }
}

/// "I want to receive exactly `amount_out`; how much must I pay?"
///
/// Fails with `NotEnoughLiquidity` exactly when `amount_out` reaches the
/// output reserve: the pool can never emit that much, whatever the payment.
/// Otherwise the charge is
/// `input_reserve * amount_out * 1000 / ((output_reserve - amount_out) * 997) + 1`,
/// the floor of the inverse curve plus one. Fails with `Overflow` exactly
/// when an intermediate value exceeds `u128::MAX`; the final increment is
/// proved never to overflow.
pub fn compute_output_price(amount_out: u128, input_reserve: u128, output_reserve: u128) -> (r:
    Result<u128, Error>)
    ensures
        amount_out >= output_reserve <==> r == Err::<u128, Error>(Error::NotEnoughLiquidity),
        r is Ok <==> amount_out < output_reserve && output_price_fits(
            amount_out as int,
            input_reserve as int,
            output_reserve as int,
        ),
        r is Ok ==> r->Ok_0 as int == spec_output_price(
            amount_out as int,
            input_reserve as int,
            output_reserve as int,
        ),
        amount_out < output_reserve && !output_price_fits(
            amount_out as int,
            input_reserve as int,
            output_reserve as int,
        ) <==> r == Err::<u128, Error>(Error::Overflow),
{
    if amount_out >= output_reserve {
        return Err(Error::NotEnoughLiquidity);
    }
    let base = match input_reserve.checked_mul(amount_out) {
        Some(v) => v,
        None => { return Err(Error::Overflow); },
    };
    let numerator = match base.checked_mul(FEE_DENOMINATOR) {
        Some(v) => v,
        None => { return Err(Error::Overflow); },
    };
    let remaining = output_reserve - amount_out;
    let denominator = match remaining.checked_mul(FEE_NUMERATOR) {
        Some(v) => v,
        None => { return Err(Error::Overflow); },
    };
    let quotient = numerator / denominator;
    proof {
        lemma_quotient_leaves_room(numerator as int, denominator as int);
    }
    Ok(quotient + 1)
}

/// Ordering two truncated quotients by cross-multiplication: whenever
/// `n1/d1 <= n2/d2` holds of the exact fractions, it holds of the floors.
proof fn lemma_div_frac_le(n1: int, d1: int, n2: int, d2: int)
    requires
        0 <= n1,
        0 < d1,
        0 <= n2,
        0 < d2,
        n1 * d2 <= n2 * d1,
    ensures
        n1 / d1 <= n2 / d2,
{
    let q = n1 / d1;
    vstd::arithmetic::div_mod::lemma_fundamental_div_mod(n1, d1);
    vstd::arithmetic::div_mod::lemma_mod_division_less_than_divisor(n1, d1);
    vstd::arithmetic::div_mod::lemma_div_pos_is_pos(n1, d1);
    assert(q * d1 <= n1) by (nonlinear_arith)
        requires
            n1 == d1 * q + n1 % d1,
            n1 % d1 >= 0,
    ;
    assert(q * d1 * d2 <= n1 * d2) by (nonlinear_arith)
        requires
            q * d1 <= n1,
            0 < d2,
    ;
    assert(q * d2 <= n2) by (nonlinear_arith)
        requires
            q * d1 * d2 <= n2 * d1,
            0 < d1,
    ;
    vstd::arithmetic::div_mod::lemma_div_is_ordered(q * d2, n2, d2);
    vstd::arithmetic::div_mod::lemma_div_multiples_vanish(q, d2);
    assert(q * d2 == d2 * q) by (nonlinear_arith);
    assert((q * d2) / d2 == q);
}

/// Monotonicity law (fixed input): for a fixed pool snapshot, the amount
/// received never shrinks when the amount paid grows.
pub proof fn lemma_input_price_monotonic(
    amount_1: u128,
    amount_2: u128,
    input_reserve: u128,
    output_reserve: u128,
)
    requires
        amount_1 <= amount_2,
    ensures
        spec_input_price(amount_1 as int, input_reserve as int, output_reserve as int)
            <= spec_input_price(amount_2 as int, input_reserve as int, output_reserve as int),
{
    let a1 = amount_1 as int;
    let a2 = amount_2 as int;
    let ri = input_reserve as int;
    let ro = output_reserve as int;
    let n1 = a1 * 997 * ro;
    let n2 = a2 * 997 * ro;
    let d1 = ri * 1000 + a1 * 997;
    let d2 = ri * 1000 + a2 * 997;
    if d1 == 0 {
        if d2 != 0 {
            assert(n2 >= 0) by (nonlinear_arith)
                requires
                    n2 == a2 * 997 * ro,
                    a2 >= 0,
                    ro >= 0,
            ;
            vstd::arithmetic::div_mod::lemma_div_pos_is_pos(n2, d2);
        }
    } else {
        assert(a1 * d2 <= a2 * d1) by (nonlinear_arith)
            requires
                a1 <= a2,
                0 <= a1,
                0 <= ri,
                d1 == ri * 1000 + a1 * 997,
                d2 == ri * 1000 + a2 * 997,
        ;
        assert(n1 * d2 <= n2 * d1) by (nonlinear_arith)
            requires
                a1 * d2 <= a2 * d1,
                0 <= ro,
                n1 == a1 * 997 * ro,
                n2 == a2 * 997 * ro,
        ;
        assert(n1 >= 0) by (nonlinear_arith)
            requires
                n1 == a1 * 997 * ro,
                a1 >= 0,
                ro >= 0,
        ;
        assert(n2 >= 0) by (nonlinear_arith)
            requires
                n2 == a2 * 997 * ro,
                a2 >= 0,
                ro >= 0,
        ;
        lemma_div_frac_le(n1, d1, n2, d2);
    }
}

/// Monotonicity law (fixed output): for a fixed pool snapshot, the amount
/// to pay never shrinks when the requested output grows, over the range
/// where both requests stay below the output reserve.
pub proof fn lemma_output_price_monotonic(
    amount_1: u128,
    amount_2: u128,
    input_reserve: u128,
    output_reserve: u128,
)
    requires
        amount_1 <= amount_2,
        amount_2 < output_reserve,
    ensures
        spec_output_price(amount_1 as int, input_reserve as int, output_reserve as int)
            <= spec_output_price(amount_2 as int, input_reserve as int, output_reserve as int),
{
    let a1 = amount_1 as int;
    let a2 = amount_2 as int;
    let ri = input_reserve as int;
    let ro = output_reserve as int;
    let n1 = ri * a1 * 1000;
    let n2 = ri * a2 * 1000;
    let d1 = (ro - a1) * 997;
    let d2 = (ro - a2) * 997;
    let u1 = a1 * (ro - a2);
    let u2 = a2 * (ro - a1);
    assert(u1 <= u2) by (nonlinear_arith)
        requires
            u1 == a1 * (ro - a2),
            u2 == a2 * (ro - a1),
            a1 <= a2,
            0 <= a1,
            0 <= ro,
    ;
    assert(n1 * d2 == ri * 1000 * 997 * u1) by (nonlinear_arith)
        requires
            n1 == ri * a1 * 1000,
            d2 == (ro - a2) * 997,
            u1 == a1 * (ro - a2),
    ;
    assert(n2 * d1 == ri * 1000 * 997 * u2) by (nonlinear_arith)
        requires
            n2 == ri * a2 * 1000,
            d1 == (ro - a1) * 997,
            u2 == a2 * (ro - a1),
    ;
    assert(ri * 1000 * 997 * u1 <= ri * 1000 * 997 * u2) by (nonlinear_arith)
        requires
            u1 <= u2,
            0 <= ri,
    ;
    assert(n1 >= 0) by (nonlinear_arith)
        requires
            n1 == ri * a1 * 1000,
            0 <= ri,
            0 <= a1,
    ;
    assert(n2 >= 0) by (nonlinear_arith)
        requires
            n2 == ri * a2 * 1000,
            0 <= ri,
            0 <= a2,
    ;
    lemma_div_frac_le(n1, d1, n2, d2);
}

/// Self-limiting law (fixed input): the payout never exceeds the output
/// reserve, and stays strictly below it whenever both reserves are live.
/// This is why the fixed-input direction needs no liquidity check.
pub proof fn lemma_input_price_self_limiting(
    amount_in: u128,
    input_reserve: u128,
    output_reserve: u128,
)
    ensures
        spec_input_price(amount_in as int, input_reserve as int, output_reserve as int)
            <= output_reserve,
        input_reserve > 0 && output_reserve > 0 ==> spec_input_price(
            amount_in as int,
            input_reserve as int,
            output_reserve as int,
        ) < output_reserve,
{
    let a = amount_in as int;
    let ri = input_reserve as int;
    let ro = output_reserve as int;
    let adjusted = a * 997;
    let den = ri * 1000 + adjusted;
    let nn = adjusted * ro;
    if den != 0 {
        assert(nn <= den * ro) by (nonlinear_arith)
            requires
                nn == adjusted * ro,
                adjusted <= den,
                0 <= ro,
        ;
        vstd::arithmetic::div_mod::lemma_multiply_divide_le(nn, den, ro);
        if ri > 0 && ro > 0 {
            assert(nn < den * ro) by (nonlinear_arith)
                requires
                    nn == adjusted * ro,
                    adjusted < den,
                    0 < ro,
            ;
            vstd::arithmetic::div_mod::lemma_multiply_divide_lt(nn, den, ro);
        }
    }
}

/// The exact region where the fixed-input/fixed-output round trip cannot
/// favor the trader: the value that the fixed-input quote truncates away
/// (the curve remainder) must not exceed the fee-adjusted worth of one
/// remaining unit of output reserve, which is what the return quote's
/// one-unit up-rounding covers. Outside this region a tiny pool loses more
/// to truncation than the up-rounding wins back.
pub open spec fn round_trip_covered(
    amount_in: int,
    input_reserve: int,
    output_reserve: int,
) -> bool {
    let adjusted = amount_in * FEE_NUMERATOR;
    let denominator = input_reserve * FEE_DENOMINATOR + adjusted;
    if denominator == 0 {
        true
    } else {
        (output_reserve - spec_input_price(amount_in, input_reserve, output_reserve))
            * FEE_NUMERATOR >= (adjusted * output_reserve) % denominator
    }
}

/// Pool-favoring rounding law: feed the payout of a fixed-input trade back
/// in as the desired output of a fixed-output trade on the same snapshot.
/// Wherever that return quote is defined (the payout stays below the output
/// reserve and its arithmetic fits) and the truncation loss is covered
/// (`round_trip_covered`), the required payment is never below the original
/// amount paid: truncation alone cannot be turned against the pool.
pub proof fn lemma_round_trip_no_discount(
    amount_in: u128,
    input_reserve: u128,
    output_reserve: u128,
)
    requires
        input_price_fits(amount_in as int, input_reserve as int, output_reserve as int),
        spec_input_price(amount_in as int, input_reserve as int, output_reserve as int)
            < output_reserve,
        output_price_fits(
            spec_input_price(amount_in as int, input_reserve as int, output_reserve as int),
            input_reserve as int,
            output_reserve as int,
        ),
        round_trip_covered(amount_in as int, input_reserve as int, output_reserve as int),
    ensures
        spec_output_price(
            spec_input_price(amount_in as int, input_reserve as int, output_reserve as int),
            input_reserve as int,
            output_reserve as int,
        ) >= amount_in,
{
    let a = amount_in as int;
    let ri = input_reserve as int;
    let ro = output_reserve as int;
    let adjusted = a * 997;
    let dd = ri * 1000 + adjusted;
    let nn = adjusted * ro;
    let b = spec_input_price(a, ri, ro);
    let dprime = (ro - b) * 997;
    let y = ri * b * 1000;
    if dd == 0 {
        assert(a == 0 && b == 0);
        vstd::arithmetic::div_mod::lemma_div_of0(dprime);
    } else {
        assert(b == nn / dd);
        let r = nn % dd;
        vstd::arithmetic::div_mod::lemma_fundamental_div_mod(nn, dd);
        vstd::arithmetic::div_mod::lemma_mod_division_less_than_divisor(nn, dd);
        assert(a * dprime == y + r) by (nonlinear_arith)
            requires
                nn == dd * b + r,
                nn == (a * 997) * ro,
                dd == ri * 1000 + a * 997,
                dprime == (ro - b) * 997,
                y == ri * b * 1000,
        ;
        assert(y >= (a - 1) * dprime) by (nonlinear_arith)
            requires
                a * dprime == y + r,
                dprime >= r,
        ;
        vstd::arithmetic::div_mod::lemma_div_is_ordered((a - 1) * dprime, y, dprime);
        vstd::arithmetic::div_mod::lemma_div_multiples_vanish(a - 1, dprime);
    }
}

/// The up-rounding increment cannot overflow: with a divisor of at least two,
/// the quotient is at most half the dividend.
proof fn lemma_quotient_leaves_room(numerator: int, denominator: int)
    requires
        0 <= numerator <= u128::MAX,
        denominator >= 2,
    ensures
        numerator / denominator + 1 <= u128::MAX,
{
    let q = numerator / denominator;
    vstd::arithmetic::div_mod::lemma_fundamental_div_mod(numerator, denominator);
    vstd::arithmetic::div_mod::lemma_div_pos_is_pos(numerator, denominator);
    assert(q * denominator <= numerator) by (nonlinear_arith)
        requires
            numerator == denominator * q + numerator % denominator,
            numerator % denominator >= 0,
    ;
    assert(2 * q <= q * denominator) by (nonlinear_arith)
        requires
            q >= 0,
            denominator >= 2,
    ;
}

} // verus!
