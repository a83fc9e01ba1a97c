//! Token metadata of the Dr. Fraudsworth mints.
//!
//! The protocol tokens use the Transfer Hook extension (whitelist enforcement),
//! not the Transfer Fee extension, so no mint carries a transfer fee.

use vstd::prelude::*;

use crate::drfraudsworth::accounts::addresses::{crime_mint, fraud_mint, native_mint, profit_mint};
use crate::drfraudsworth::constants::{SOL_DECIMALS, TOKEN_DECIMALS};
use crate::trading_venue::{Pubkey, TokenInfo};

verus! {

/// SOL: 9 decimals, SPL Token; CRIME, FRAUD, PROFIT: 6 decimals, Token-2022;
/// no transfer fees; every other mint is unknown.
pub open spec fn token_info_spec(mint: Pubkey) -> Option<TokenInfo> {
    if mint == native_mint() {
        Some(TokenInfo { pubkey: mint, decimals: 9, is_token_2022: false, transfer_fee: None, maximum_fee: None })
    } else if mint == crime_mint() || mint == fraud_mint() || mint == profit_mint() {
        Some(TokenInfo { pubkey: mint, decimals: 6, is_token_2022: true, transfer_fee: None, maximum_fee: None })
    } else {
        None
    }
}

/// The token metadata of a known protocol mint; `None` for unknown mints.
pub fn token_info_for_mint(mint: &Pubkey) -> (r: Option<TokenInfo>)
    ensures
        r == token_info_spec(*mint),
{
    if *mint == native_mint() {
        Some(TokenInfo {
            pubkey: native_mint(),
            decimals: SOL_DECIMALS as i32,
            is_token_2022: false,
            transfer_fee: None,
            maximum_fee: None,
        })
    } else if *mint == crime_mint() {
        Some(TokenInfo {
            pubkey: crime_mint(),
            decimals: TOKEN_DECIMALS as i32,
            is_token_2022: true,
            transfer_fee: None,
            maximum_fee: None,
        })
    } else if *mint == fraud_mint() {
        Some(TokenInfo {
            pubkey: fraud_mint(),
            decimals: TOKEN_DECIMALS as i32,
            is_token_2022: true,
            transfer_fee: None,
            maximum_fee: None,
        })
    } else if *mint == profit_mint() {
        Some(TokenInfo {
            pubkey: profit_mint(),
            decimals: TOKEN_DECIMALS as i32,
            is_token_2022: true,
            transfer_fee: None,
            maximum_fee: None,
        })
    } else {
        None
    }
}

} // verus!
