//! Conversion-vault output math.

use vstd::prelude::*;

use crate::drfraudsworth::accounts::addresses::{crime_mint, fraud_mint, profit_mint};
use crate::drfraudsworth::constants::CONVERSION_RATE;
use crate::trading_venue::Pubkey;

verus! {

/// CRIME or FRAUD: the two tokens the vault converts to and from PROFIT.
pub open spec fn is_crime_or_fraud(mint: Pubkey) -> bool {
    mint == crime_mint() || mint == fraud_mint()
}

/// The vault's conversion rule.
///
/// - CRIME/FRAUD -> PROFIT divides by 100 (a zero result is refused);
/// - PROFIT -> CRIME/FRAUD multiplies by 100 (an overflow is refused);
/// - a zero amount, a same-mint pair and every other pair are refused.
pub open spec fn vault_output_spec(input_mint: Pubkey, output_mint: Pubkey, amount_in: u64) -> Option<u64> {
    if amount_in == 0 || input_mint == output_mint {
        None
    } else if is_crime_or_fraud(input_mint) && output_mint == profit_mint() {
        if amount_in / 100 == 0 {
            None
        } else {
            Some((amount_in / 100) as u64)
        }
    } else if input_mint == profit_mint() && is_crime_or_fraud(output_mint) {
        if amount_in * 100 <= u64::MAX {
            Some((amount_in * 100) as u64)
        } else {
            None
        }
    } else {
        None
    }
}

/// Compute the output amount of a vault conversion.
pub fn compute_vault_output(input_mint: &Pubkey, output_mint: &Pubkey, amount_in: u64) -> (r: Option<u64>)
    ensures
        r == vault_output_spec(*input_mint, *output_mint, amount_in),
{
    if amount_in == 0 {
        return None;
    }
    if *input_mint == *output_mint {
        return None;
    }
    let is_input_crime_or_fraud = *input_mint == crime_mint() || *input_mint == fraud_mint();
    let is_output_profit = *output_mint == profit_mint();
    let is_input_profit = *input_mint == profit_mint();
    let is_output_crime_or_fraud = *output_mint == crime_mint() || *output_mint == fraud_mint();

    if is_input_crime_or_fraud && is_output_profit {
        let out = amount_in / CONVERSION_RATE;
        if out == 0 {
            return None;
        }
        Some(out)
    } else if is_input_profit && is_output_crime_or_fraud {
        amount_in.checked_mul(CONVERSION_RATE)
    } else {
        None
    }
}

/// Converting PROFIT into CRIME or FRAUD and back returns the original amount.
pub proof fn lemma_vault_roundtrip(token: Pubkey, amount: u64)
    requires
        is_crime_or_fraud(token),
        vault_output_spec(profit_mint(), token, amount) is Some,
    ensures
        vault_output_spec(token, profit_mint(), vault_output_spec(profit_mint(), token, amount)->0)
            == Some(amount),
{
    let out = vault_output_spec(profit_mint(), token, amount)->0;
    assert(out == amount * 100);
    assert((amount * 100) / 100 == amount as int) by (nonlinear_arith);
}

/// The protocol mints are distinct addresses.
pub proof fn lemma_protocol_mints_distinct()
    ensures
        crime_mint() != profit_mint(),
        fraud_mint() != profit_mint(),
        crime_mint() != fraud_mint(),
{
    broadcast use vstd::array::group_array_axioms;
    assert(crime_mint().0[0] != profit_mint().0[0] || crime_mint().0[1] != profit_mint().0[1]);
    assert(fraud_mint().0[0] != profit_mint().0[0] || fraud_mint().0[1] != profit_mint().0[1]);
    assert(crime_mint().0[0] != fraud_mint().0[0]);
}

/// PROFIT converts into CRIME or FRAUD at 100 to 1: any non-zero amount gives
/// exactly `amount * 100`, refused only where that overflows a u64.
pub proof fn lemma_profit_to_token_is_times_hundred(output_mint: Pubkey, amount: u64)
    requires
        output_mint == crime_mint() || output_mint == fraud_mint(),
    ensures
        vault_output_spec(profit_mint(), output_mint, amount) == (if amount > 0 && amount * 100 <= u64::MAX {
            Some((amount * 100) as u64)
        } else {
            None::<u64>
        }),
{
    lemma_protocol_mints_distinct();
}

/// CRIME or FRAUD converts into PROFIT at 1 to 100, rounding down: an amount of
/// at least 100 gives exactly `amount / 100`; less is refused as dust.
pub proof fn lemma_token_to_profit_is_div_hundred(input_mint: Pubkey, amount: u64)
    requires
        input_mint == crime_mint() || input_mint == fraud_mint(),
    ensures
        vault_output_spec(input_mint, profit_mint(), amount) == (if amount >= 100 {
            Some(amount / 100)
        } else {
            None::<u64>
        }),
{
    lemma_protocol_mints_distinct();
}

} // verus!
