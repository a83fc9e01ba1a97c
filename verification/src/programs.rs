//! Well-known Solana program and sysvar addresses.

use vstd::prelude::*;

use crate::trading_venue::Pubkey;

verus! {

/// `TokenkegQfeZyiNwAJbNbGKPFXCWuBvf9Ss623VQ5DA`
pub const SPL_TOKEN_PROGRAM_BYTES: [u8; 32] = [
    6, 221, 246, 225, 215, 101, 161, 147, 217, 203, 225, 70, 206, 235, 121, 172,
    28, 180, 133, 237, 95, 91, 55, 145, 58, 140, 245, 133, 126, 255, 0, 169,
];

/// `TokenzQdBNbLqP5VEhdkAS6EPFLC1PHnBqCXEpPxuEb`
pub const TOKEN_2022_PROGRAM_BYTES: [u8; 32] = [
    6, 221, 246, 225, 238, 117, 143, 222, 24, 66, 93, 188, 228, 108, 205, 218,
    182, 26, 252, 77, 131, 185, 13, 39, 254, 189, 249, 40, 216, 161, 139, 252,
];

/// `ATokenGPvbdGVxr1b2hvZbsiqW5xWH25efTNsLJA8knL`
pub const ASSOCIATED_TOKEN_PROGRAM_BYTES: [u8; 32] = [
    140, 151, 37, 143, 78, 36, 137, 241, 187, 61, 16, 41, 20, 142, 13, 131,
    11, 90, 19, 153, 218, 255, 16, 132, 4, 142, 123, 216, 219, 233, 248, 89,
];

/// `SysvarC1ock11111111111111111111111111111111`
pub const SYSVAR_CLOCK_BYTES: [u8; 32] = [
    6, 167, 213, 23, 24, 199, 116, 201, 40, 86, 99, 152, 105, 29, 94, 182,
    139, 94, 184, 163, 155, 75, 109, 92, 115, 85, 91, 33, 0, 0, 0, 0,
];

/// `Sysvar1nstructions1111111111111111111111111`
pub const INSTRUCTIONS_SYSVAR_BYTES: [u8; 32] = [
    6, 167, 213, 23, 24, 123, 209, 102, 53, 218, 212, 4, 85, 253, 194, 192,
    193, 36, 198, 143, 33, 86, 117, 165, 219, 186, 203, 95, 8, 0, 0, 0,
];

/// `11111111111111111111111111111111`
pub const SYSTEM_PROGRAM_BYTES: [u8; 32] = [
    0, 0, 0, 0, 0, 0, 0, 0, 0, 0, 0, 0, 0, 0, 0, 0,
    0, 0, 0, 0, 0, 0, 0, 0, 0, 0, 0, 0, 0, 0, 0, 0,
];

/// The SPL Token program.
#[verifier::allow_in_spec]
pub fn spl_token_program() -> Pubkey
    returns
        Pubkey(SPL_TOKEN_PROGRAM_BYTES),
{
    Pubkey(SPL_TOKEN_PROGRAM_BYTES)
}

/// The Token-2022 program.
#[verifier::allow_in_spec]
pub fn token_2022_program() -> Pubkey
    returns
        Pubkey(TOKEN_2022_PROGRAM_BYTES),
{
    Pubkey(TOKEN_2022_PROGRAM_BYTES)
}

/// The System program (all zero bytes).
#[verifier::allow_in_spec]
pub fn system_program() -> Pubkey
    returns
        Pubkey(SYSTEM_PROGRAM_BYTES),
{
    Pubkey(SYSTEM_PROGRAM_BYTES)
}

/// The Associated Token Account program.
#[verifier::allow_in_spec]
pub fn associated_token_program() -> Pubkey
    returns
        Pubkey(ASSOCIATED_TOKEN_PROGRAM_BYTES),
{
    Pubkey(ASSOCIATED_TOKEN_PROGRAM_BYTES)
}

/// The `Clock` sysvar.
#[verifier::allow_in_spec]
pub fn sysvar_clock() -> Pubkey
    returns
        Pubkey(SYSVAR_CLOCK_BYTES),
{
    Pubkey(SYSVAR_CLOCK_BYTES)
}

/// The `Instructions` sysvar.
#[verifier::allow_in_spec]
pub fn instructions_sysvar() -> Pubkey
    returns
        Pubkey(INSTRUCTIONS_SYSVAR_BYTES),
{
    Pubkey(INSTRUCTIONS_SYSVAR_BYTES)
}

} // verus!
