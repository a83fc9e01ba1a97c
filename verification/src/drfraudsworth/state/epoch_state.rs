//! Raw byte parser for the EpochState account.
//!
//! Layout:
//!   [0..8]     Anchor discriminator (`sha256("account:EpochState")[0..8]`)
//!   [33..35]   crime_buy_tax_bps (u16 LE)
//!   [35..37]   crime_sell_tax_bps (u16 LE)
//!   [37..39]   fraud_buy_tax_bps (u16 LE)
//!   [39..41]   fraud_sell_tax_bps (u16 LE)

use vstd::prelude::*;

use crate::drfraudsworth::constants::EPOCH_STATE_DISCRIMINATOR;
use crate::hashing::{sha256, sha256_digest};
use crate::le_bytes::{read_u16_le, u16_le_value};
use crate::trading_venue::LayoutError;

verus! {

/// Minimum length of an EpochState account.
pub const EPOCH_STATE_MIN_LEN: usize = 172;

/// The bytes of `"account:EpochState"`.
pub const EPOCH_STATE_ACCOUNT_NAME: [u8; 18] = [
    97, 99, 99, 111, 117, 110, 116, 58, 69, 112, 111, 99, 104, 83, 116, 97, 116, 101,
];

/// The tax rates of the current epoch, per token and direction.
#[derive(Debug, Clone, Copy, PartialEq, Eq)]
pub struct ParsedEpochState {
    pub crime_buy_tax_bps: u16,
    pub crime_sell_tax_bps: u16,
    pub fraud_buy_tax_bps: u16,
    pub fraud_sell_tax_bps: u16,
}

/// The four tax rates an EpochState account holds.
pub open spec fn epoch_state_fields(data: Seq<u8>) -> ParsedEpochState {
    ParsedEpochState {
        crime_buy_tax_bps: u16_le_value(data[33], data[34]),
        crime_sell_tax_bps: u16_le_value(data[35], data[36]),
        fraud_buy_tax_bps: u16_le_value(data[37], data[38]),
        fraud_sell_tax_bps: u16_le_value(data[39], data[40]),
    }
}

/// What parsing an EpochState account yields.
pub open spec fn parse_epoch_state_spec(data: Seq<u8>) -> Result<ParsedEpochState, LayoutError> {
    if data.len() < EPOCH_STATE_MIN_LEN {
        Err(LayoutError::TooShort { got: data.len() as usize, need: EPOCH_STATE_MIN_LEN })
    } else if data.subrange(0, 8) != EPOCH_STATE_DISCRIMINATOR@ {
        Err(LayoutError::BadDiscriminator)
    } else {
        Ok(epoch_state_fields(data))
    }
}

/// The tax rate for a token (CRIME or FRAUD) and direction (buy or sell).
pub open spec fn tax_bps_spec(state: ParsedEpochState, is_crime: bool, is_buy: bool) -> u16 {
    if is_crime {
        if is_buy { state.crime_buy_tax_bps } else { state.crime_sell_tax_bps }
    } else {
        if is_buy { state.fraud_buy_tax_bps } else { state.fraud_sell_tax_bps }
    }
}

impl ParsedEpochState {
    /// Parse EpochState account data: too short and wrong-discriminator data are refused.
    pub fn from_bytes(data: &[u8]) -> (r: Result<Self, LayoutError>)
        ensures
            r == parse_epoch_state_spec(data@),
    {
        if data.len() < EPOCH_STATE_MIN_LEN {
            return Err(LayoutError::TooShort { got: data.len(), need: EPOCH_STATE_MIN_LEN });
        }
        let mut i: usize = 0;
        while i < 8
            invariant
                0 <= i <= 8,
                data@.len() >= EPOCH_STATE_MIN_LEN,
                forall|j: int| 0 <= j < i ==> data@[j] == EPOCH_STATE_DISCRIMINATOR@[j],
            decreases 8 - i,
        {
            if data[i] != EPOCH_STATE_DISCRIMINATOR[i] {
                proof {
                    assert(data@.subrange(0, 8)[i as int] != EPOCH_STATE_DISCRIMINATOR@[i as int]);
                }
                return Err(LayoutError::BadDiscriminator);
            }
            i = i + 1;
        }
        assert(data@.subrange(0, 8) =~= EPOCH_STATE_DISCRIMINATOR@);
        Ok(ParsedEpochState {
            crime_buy_tax_bps: read_u16_le(data, 33),
            crime_sell_tax_bps: read_u16_le(data, 35),
            fraud_buy_tax_bps: read_u16_le(data, 37),
            fraud_sell_tax_bps: read_u16_le(data, 39),
        })
    }

    /// The tax rate for a token (CRIME when `is_crime`) and direction (buy when `is_buy`).
    pub fn get_tax_bps(&self, is_crime: bool, is_buy: bool) -> (r: u16)
        ensures
            r == tax_bps_spec(*self, is_crime, is_buy),
    {
        match (is_crime, is_buy) {
            (true, true) => self.crime_buy_tax_bps,
            (true, false) => self.crime_sell_tax_bps,
            (false, true) => self.fraud_buy_tax_bps,
            (false, false) => self.fraud_sell_tax_bps,
        }
    }
}

/// The EpochState discriminator as Anchor computes it: `sha256("account:EpochState")[0..8]`.
pub fn compute_epoch_state_discriminator() -> (r: [u8; 8])
    ensures
        r@ == sha256_digest(EPOCH_STATE_ACCOUNT_NAME@).take(8),
{
    let hash = sha256(&EPOCH_STATE_ACCOUNT_NAME);
    let mut disc = [0u8; 8];
    let mut k: usize = 0;
    while k < 8
        invariant
            0 <= k <= 8,
            hash@ == sha256_digest(EPOCH_STATE_ACCOUNT_NAME@),
            forall|m: int| 0 <= m < k ==> disc@[m] == hash@[m],
        decreases 8 - k,
    {
        disc[k] = hash[k];
        k = k + 1;
    }
    assert(disc@ =~= hash@.take(8));
    disc
}

} // verus!
