//! Raw byte parser for the AMM PoolState account.
//!
//! Layout:
//!   [0..8]     Anchor discriminator
//!   [8]        pool_type (u8)
//!   [9..41]    mint_a (32 bytes)
//!   [41..73]   mint_b (32 bytes)
//!   [73..105]  vault_a (32 bytes)
//!   [105..137] vault_b (32 bytes)
//!   [137..145] reserve_a (u64 LE)
//!   [145..153] reserve_b (u64 LE)
//!   [153..155] lp_fee_bps (u16 LE)

use vstd::prelude::*;

use crate::drfraudsworth::accounts::addresses::native_mint;
use crate::le_bytes::{le_value, read_u16_le, read_u64_le, u16_le_value};
use crate::trading_venue::{LayoutError, Pubkey};

verus! {

/// Minimum length of a PoolState account.
pub const POOL_STATE_MIN_LEN: usize = 155;

/// What the venues read of an AMM pool.
#[derive(Debug, Clone, Copy, PartialEq, Eq)]
pub struct ParsedPoolState {
    pub mint_a: Pubkey,
    pub reserve_a: u64,
    pub reserve_b: u64,
    pub lp_fee_bps: u16,
}

/// The fields a PoolState account holds at their offsets.
pub open spec fn pool_state_fields(state: ParsedPoolState, data: Seq<u8>) -> bool {
    &&& state.mint_a.0@ == data.subrange(9, 41)
    &&& state.reserve_a as nat == le_value(data.subrange(137, 145))
    &&& state.reserve_b as nat == le_value(data.subrange(145, 153))
    &&& state.lp_fee_bps == u16_le_value(data[153], data[154])
}

/// `(sol_reserve, token_reserve)`: side A is SOL exactly when `mint_a` is the native mint.
pub open spec fn sol_and_token_reserves_spec(state: ParsedPoolState) -> (u64, u64) {
    if state.mint_a == native_mint() {
        (state.reserve_a, state.reserve_b)
    } else {
        (state.reserve_b, state.reserve_a)
    }
}

impl ParsedPoolState {
    /// Parse PoolState account data; data shorter than the layout is refused.
    pub fn from_bytes(data: &[u8]) -> (r: Result<Self, LayoutError>)
        ensures
            data@.len() < POOL_STATE_MIN_LEN <==> r is Err,
            r matches Err(e) ==> e == (LayoutError::TooShort { got: data@.len() as usize, need: POOL_STATE_MIN_LEN }),
            r matches Ok(s) ==> pool_state_fields(s, data@),
    {
        if data.len() < POOL_STATE_MIN_LEN {
            return Err(LayoutError::TooShort { got: data.len(), need: POOL_STATE_MIN_LEN });
        }
        let mint_a = Pubkey::read_from(data, 9);
        let reserve_a = read_u64_le(data, 137);
        let reserve_b = read_u64_le(data, 145);
        let lp_fee_bps = read_u16_le(data, 153);
        Ok(ParsedPoolState { mint_a, reserve_a, reserve_b, lp_fee_bps })
    }

    /// Returns `(sol_reserve, token_reserve)`, detecting a reversed pool by `mint_a`.
    pub fn sol_and_token_reserves(&self) -> (r: (u64, u64))
        ensures
            r == sol_and_token_reserves_spec(*self),
    {
        if self.mint_a == native_mint() {
            (self.reserve_a, self.reserve_b)
        } else {
            (self.reserve_b, self.reserve_a)
        }
    }
}

} // verus!
