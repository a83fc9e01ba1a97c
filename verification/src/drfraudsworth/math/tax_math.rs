//! Tax calculation of the on-chain Tax Program (primitives only).

use vstd::prelude::*;

verus! {

/// `amount * tax_bps / 10_000`.
pub open spec fn tax_spec(amount: int, tax_bps: int) -> int {
    amount * tax_bps / 10_000
}

/// The (staking, carnage, treasury) split of a total tax: 71% and 24% rounded
/// down, the treasury takes the remainder; totals below 4 go wholly to staking.
pub open spec fn split_spec(total: int) -> (int, int, int) {
    if total < 4 {
        (total, 0, 0)
    } else {
        let staking = total * 7_100 / 10_000;
        let carnage = total * 2_400 / 10_000;
        (staking, carnage, total - staking - carnage)
    }
}

/// Calculate tax amount from a lamport value and tax rate in basis points.
///
/// `None` exactly when `tax_bps > 10_000`; the tax never exceeds the amount.
pub fn calculate_tax(amount_lamports: u64, tax_bps: u16) -> (r: Option<u64>)
    ensures
        r is Some <==> tax_bps <= 10_000,
        r matches Some(t) ==> t == tax_spec(amount_lamports as int, tax_bps as int),
        r matches Some(t) ==> t <= amount_lamports,
{
    if tax_bps > 10_000 {
        return None;
    }
    let amount = amount_lamports as u128;
    let bps = tax_bps as u128;
    assert(amount * bps <= 0xffff_ffff_ffff_ffff * 10_000) by (nonlinear_arith)
        requires amount <= 0xffff_ffff_ffff_ffff, bps <= 10_000;
    assert(amount * bps / 10_000 <= amount) by (nonlinear_arith)
        requires bps <= 10_000;
    let product = match amount.checked_mul(bps) {
        Some(p) => p,
        None => return None,
    };
    let tax = match product.checked_div(10_000) {
        Some(t) => t,
        None => return None,
    };
    if tax <= u64::MAX as u128 {
        Some(tax as u64)
    } else {
        None
    }
}

/// Split total tax into (staking, carnage, treasury) portions (71/24/5).
///
/// Always `Some`: the three portions add up to `total_tax` exactly.
pub fn split_distribution(total_tax: u64) -> (r: Option<(u64, u64, u64)>)
    ensures
        r is Some,
        r matches Some((s, c, t)) ==> (s as int, c as int, t as int) == split_spec(total_tax as int),
        r matches Some((s, c, t)) ==> s + c + t == total_tax,
{
    if total_tax < 4 {
        return Some((total_tax, 0, 0));
    }
    let total = total_tax as u128;
    assert(total * 7_100 / 10_000 + total * 2_400 / 10_000 <= total) by (nonlinear_arith)
        requires total >= 0;
    assert(total * 7_100 <= u128::MAX) by (nonlinear_arith) requires total <= u64::MAX;
    let staking_u128 = total * 7_100 / 10_000;
    let carnage_u128 = total * 2_400 / 10_000;
    let staking = staking_u128 as u64;
    let carnage = carnage_u128 as u64;
    let after_staking = match total_tax.checked_sub(staking) {
        Some(x) => x,
        None => return None,
    };
    let treasury = match after_staking.checked_sub(carnage) {
        Some(x) => x,
        None => return None,
    };
    Some((staking, carnage, treasury))
}

/// The portions of a split always add up to the total.
pub proof fn lemma_split_sums_to_total(total: int)
    requires
        total >= 0,
    ensures
        split_spec(total).0 + split_spec(total).1 + split_spec(total).2 == total,
        split_spec(total).0 >= 0 && split_spec(total).1 >= 0 && split_spec(total).2 >= 0,
{
    if total >= 4 {
        assert(total * 7_100 / 10_000 + total * 2_400 / 10_000 <= total) by (nonlinear_arith)
            requires total >= 0;
        assert(total * 7_100 / 10_000 >= 0 && total * 2_400 / 10_000 >= 0) by (nonlinear_arith)
            requires total >= 0;
    }
}

/// Paying the tax from an amount leaves a remainder that never shrinks as the
/// amount grows: `a - tax(a)` is non-decreasing for rates up to 100%.
pub proof fn lemma_after_tax_monotone(a1: int, a2: int, tax_bps: int)
    requires
        0 <= a1 <= a2,
        0 <= tax_bps <= 10_000,
    ensures
        0 <= a1 - tax_spec(a1, tax_bps) <= a2 - tax_spec(a2, tax_bps),
        0 <= tax_spec(a1, tax_bps) <= tax_spec(a2, tax_bps),
{
    let k = 10_000 - tax_bps;
    // a - floor(a*t/10000) == ceil(a*k/10000), which is monotone in a.
    assert(a1 * tax_bps <= a2 * tax_bps) by (nonlinear_arith) requires 0 <= a1 <= a2, tax_bps >= 0;
    assert(a1 * tax_bps >= 0) by (nonlinear_arith) requires a1 >= 0, tax_bps >= 0;
    vstd::arithmetic::div_mod::lemma_div_is_ordered(a1 * tax_bps, a2 * tax_bps, 10_000);
    vstd::arithmetic::div_mod::lemma_div_pos_is_pos(a1 * tax_bps, 10_000);
    let t1 = tax_spec(a1, tax_bps);
    let t2 = tax_spec(a2, tax_bps);
    // t2 - t1 <= a2 - a1
    assert(t2 - t1 <= a2 - a1) by (nonlinear_arith)
        requires
            t1 == a1 * tax_bps / 10_000,
            t2 == a2 * tax_bps / 10_000,
            0 <= a1 <= a2,
            0 <= tax_bps <= 10_000;
    assert(t1 <= a1) by (nonlinear_arith)
        requires t1 == a1 * tax_bps / 10_000, a1 >= 0, 0 <= tax_bps <= 10_000;
}

} // verus!
