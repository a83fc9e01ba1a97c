//! Constant-product swap math of the on-chain AMM program (primitives only).

use vstd::prelude::*;

verus! {

/// Basis-point denominator.
pub const BPS_DENOMINATOR: u128 = 10_000;

/// The input left after the LP fee: `amount_in * (10_000 - fee_bps) / 10_000`.
pub open spec fn effective_input_spec(amount_in: int, fee_bps: int) -> int {
    amount_in * (10_000 - fee_bps) / 10_000
}

/// Constant-product output: `reserve_out * effective_input / (reserve_in + effective_input)`.
pub open spec fn swap_output_spec(reserve_in: int, reserve_out: int, effective_input: int) -> int {
    reserve_out * effective_input / (reserve_in + effective_input)
}

/// Calculate effective input after LP fee deduction.
///
/// `None` exactly when `fee_bps > 10_000`; the product cannot overflow a u128.
pub fn calculate_effective_input(amount_in: u64, fee_bps: u16) -> (r: Option<u128>)
    ensures
        r is Some <==> fee_bps <= 10_000,
        r matches Some(e) ==> e == effective_input_spec(amount_in as int, fee_bps as int),
        r matches Some(e) ==> e <= amount_in,
{
    let amount = amount_in as u128;
    let fee_factor = match 10_000u128.checked_sub(fee_bps as u128) {
        Some(f) => f,
        None => return None,
    };
    assert(amount * fee_factor <= 0xffff_ffff_ffff_ffff * 10_000) by (nonlinear_arith)
        requires amount <= 0xffff_ffff_ffff_ffff, fee_factor <= 10_000;
    assert(amount * fee_factor / 10_000 <= amount) by (nonlinear_arith)
        requires fee_factor <= 10_000;
    let product = match amount.checked_mul(fee_factor) {
        Some(p) => p,
        None => return None,
    };
    product.checked_div(BPS_DENOMINATOR)
}

/// Calculate swap output using the constant-product formula; integer division
/// truncates (the protocol keeps the dust).
///
/// `None` exactly when `reserve_out * effective_input` or
/// `reserve_in + effective_input` overflows a u128, or the denominator is zero.
pub fn calculate_swap_output(reserve_in: u64, reserve_out: u64, effective_input: u128) -> (r: Option<u64>)
    ensures
        r is Some <==> (reserve_out * effective_input <= u128::MAX
            && reserve_in + effective_input <= u128::MAX
            && reserve_in + effective_input > 0),
        r matches Some(o) ==> o == swap_output_spec(reserve_in as int, reserve_out as int, effective_input as int),
        r matches Some(o) ==> o <= reserve_out,
        r matches Some(o) ==> (reserve_in > 0 && reserve_out > 0 ==> o < reserve_out),
{
    let r_in = reserve_in as u128;
    let r_out = reserve_out as u128;

    let numerator = match r_out.checked_mul(effective_input) {
        Some(n) => n,
        None => return None,
    };
    let denominator = match r_in.checked_add(effective_input) {
        Some(d) => d,
        None => return None,
    };
    if denominator == 0 {
        return None;
    }
    let output = numerator / denominator;
    proof {
        lemma_swap_output_bounded(r_in as int, r_out as int, effective_input as int);
    }
    Some(output as u64)
}

/// The constant-product output never exceeds the output reserve, and stays
/// strictly below it while the input reserve is positive.
pub proof fn lemma_swap_output_bounded(reserve_in: int, reserve_out: int, effective_input: int)
    requires
        reserve_in >= 0,
        reserve_out >= 0,
        effective_input >= 0,
        reserve_in + effective_input > 0,
    ensures
        swap_output_spec(reserve_in, reserve_out, effective_input) <= reserve_out,
        swap_output_spec(reserve_in, reserve_out, effective_input) >= 0,
        reserve_in > 0 && reserve_out > 0 ==> swap_output_spec(reserve_in, reserve_out, effective_input) < reserve_out,
{
    let d = reserve_in + effective_input;
    let n = reserve_out * effective_input;
    assert(n <= reserve_out * d) by (nonlinear_arith)
        requires reserve_out >= 0, effective_input <= d, n == reserve_out * effective_input;
    assert(n >= 0) by (nonlinear_arith)
        requires reserve_out >= 0, effective_input >= 0, n == reserve_out * effective_input;
    assert(n / d <= reserve_out) by (nonlinear_arith)
        requires n <= reserve_out * d, d > 0, n >= 0;
    assert(n / d >= 0) by (nonlinear_arith) requires n >= 0, d > 0;
    if reserve_in > 0 && reserve_out > 0 {
        assert(n < reserve_out * d) by (nonlinear_arith)
            requires reserve_out > 0, effective_input < d, n == reserve_out * effective_input;
        assert(n / d < reserve_out) by (nonlinear_arith)
            requires n < reserve_out * d, d > 0, n >= 0;
    }
}

/// Cross-multiplied fractions compare as their floors do.
pub proof fn lemma_floor_div_ordered(n1: int, d1: int, n2: int, d2: int)
    requires
        n1 >= 0,
        n2 >= 0,
        d1 > 0,
        d2 > 0,
        n1 * d2 <= n2 * d1,
    ensures
        n1 / d1 <= n2 / d2,
{
    let q1 = n1 / d1;
    assert(q1 * d1 <= n1) by (nonlinear_arith) requires d1 > 0, n1 >= 0, q1 == n1 / d1;
    assert(q1 >= 0) by (nonlinear_arith) requires d1 > 0, n1 >= 0, q1 == n1 / d1;
    assert(q1 * d1 * d2 <= n2 * d1) by (nonlinear_arith)
        requires q1 * d1 <= n1, d2 > 0, n1 * d2 <= n2 * d1;
    assert(q1 * d2 <= n2) by (nonlinear_arith)
        requires q1 * d1 * d2 <= n2 * d1, d1 > 0;
    assert(q1 <= n2 / d2) by (nonlinear_arith)
        requires q1 * d2 <= n2, d2 > 0, q1 >= 0;
}

/// The fee-adjusted input is non-decreasing in the raw input amount.
pub proof fn lemma_effective_input_monotone(a1: int, a2: int, fee_bps: int)
    requires
        0 <= a1 <= a2,
        0 <= fee_bps <= 10_000,
    ensures
        0 <= effective_input_spec(a1, fee_bps) <= effective_input_spec(a2, fee_bps),
{
    let f = 10_000 - fee_bps;
    assert(a1 * f <= a2 * f) by (nonlinear_arith) requires 0 <= a1 <= a2, f >= 0;
    assert(a1 * f >= 0) by (nonlinear_arith) requires a1 >= 0, f >= 0;
    vstd::arithmetic::div_mod::lemma_div_is_ordered(a1 * f, a2 * f, 10_000);
    vstd::arithmetic::div_mod::lemma_div_pos_is_pos(a1 * f, 10_000);
}

/// Swapping more input into the same reserves never yields less output.
pub proof fn lemma_swap_output_monotone(reserve_in: int, reserve_out: int, e1: int, e2: int)
    requires
        reserve_in >= 0,
        reserve_out >= 0,
        0 <= e1 <= e2,
        reserve_in + e1 > 0,
    ensures
        swap_output_spec(reserve_in, reserve_out, e1) <= swap_output_spec(reserve_in, reserve_out, e2),
{
    let n1 = reserve_out * e1;
    let n2 = reserve_out * e2;
    let d1 = reserve_in + e1;
    let d2 = reserve_in + e2;
    assert(n1 * d2 <= n2 * d1) by (nonlinear_arith)
        requires
            n1 == reserve_out * e1,
            n2 == reserve_out * e2,
            d1 == reserve_in + e1,
            d2 == reserve_in + e2,
            reserve_in >= 0,
            reserve_out >= 0,
            0 <= e1 <= e2;
    assert(n1 >= 0 && n2 >= 0) by (nonlinear_arith)
        requires n1 == reserve_out * e1, n2 == reserve_out * e2, reserve_out >= 0, 0 <= e1 <= e2;
    lemma_floor_div_ordered(n1, d1, n2, d2);
}

} // verus!
