//! Protocol constants of the Dr. Fraudsworth venues.

use vstd::prelude::*;

verus! {

/// LP fee in basis points (1%).
pub const LP_FEE_BPS: u16 = 100;

/// Conversion rate of the vault (100 CRIME/FRAUD : 1 PROFIT).
pub const CONVERSION_RATE: u64 = 100;

/// Token decimals of CRIME, FRAUD and PROFIT.
pub const TOKEN_DECIMALS: u8 = 6;

/// Decimals of SOL (the native mint).
pub const SOL_DECIMALS: u8 = 9;

/// Anchor discriminator of the EpochState account:
/// the first 8 bytes of `sha256("account:EpochState")`.
pub const EPOCH_STATE_DISCRIMINATOR: [u8; 8] = [0xbf, 0x3f, 0x8b, 0xed, 0x90, 0x0c, 0xdf, 0xd2];

} // verus!
