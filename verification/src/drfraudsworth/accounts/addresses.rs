//! Mainnet addresses of the Dr. Fraudsworth protocol (compile-time constants).

use vstd::prelude::*;

use crate::trading_venue::Pubkey;

verus! {

// Programs
/// `5JsSAL3kJDUWD4ZveYXYZmgm1eVqueesTZVdAvtZg8cR`
pub const AMM_PROGRAM_ID_BYTES: [u8; 32] = [
    64, 2, 165, 171, 119, 91, 59, 77, 147, 27, 43, 71, 192, 60, 119, 242,
    223, 134, 93, 200, 28, 54, 196, 171, 217, 186, 29, 126, 31, 138, 198, 186,
];

#[verifier::allow_in_spec]
pub fn amm_program_id() -> Pubkey
    returns
        Pubkey(AMM_PROGRAM_ID_BYTES),
{
    Pubkey(AMM_PROGRAM_ID_BYTES)
}

/// `CiQPQrmQh6BPhb9k7dFnsEs5gKPgdrvNKFc5xie5xVGd`
pub const TRANSFER_HOOK_PROGRAM_ID_BYTES: [u8; 32] = [
    174, 11, 207, 252, 211, 113, 63, 236, 103, 69, 51, 40, 94, 95, 95, 12,
    145, 13, 103, 229, 16, 95, 156, 216, 241, 31, 106, 215, 48, 236, 18, 50,
];

#[verifier::allow_in_spec]
pub fn transfer_hook_program_id() -> Pubkey
    returns
        Pubkey(TRANSFER_HOOK_PROGRAM_ID_BYTES),
{
    Pubkey(TRANSFER_HOOK_PROGRAM_ID_BYTES)
}

/// `43fZGRtmEsP7ExnJE1dbTbNjaP1ncvVmMPusSeksWGEj`
pub const TAX_PROGRAM_ID_BYTES: [u8; 32] = [
    45, 65, 209, 114, 183, 158, 14, 46, 96, 175, 143, 213, 174, 7, 234, 135,
    65, 158, 248, 30, 46, 242, 241, 38, 205, 30, 10, 29, 245, 82, 141, 128,
];

#[verifier::allow_in_spec]
pub fn tax_program_id() -> Pubkey
    returns
        Pubkey(TAX_PROGRAM_ID_BYTES),
{
    Pubkey(TAX_PROGRAM_ID_BYTES)
}

/// `4Heqc8QEjJCspHR8y96wgZBnBfbe3Qb8N6JBZMQt9iw2`
pub const EPOCH_PROGRAM_ID_BYTES: [u8; 32] = [
    48, 215, 35, 39, 92, 255, 252, 177, 255, 59, 215, 14, 138, 15, 252, 42,
    224, 251, 124, 63, 231, 83, 226, 150, 188, 103, 242, 205, 48, 27, 224, 209,
];

#[verifier::allow_in_spec]
pub fn epoch_program_id() -> Pubkey
    returns
        Pubkey(EPOCH_PROGRAM_ID_BYTES),
{
    Pubkey(EPOCH_PROGRAM_ID_BYTES)
}

/// `12b3t1cNiAUoYLiWFEnFa4w6qYxVAiqCWU7KZuzLPYtH`
pub const STAKING_PROGRAM_ID_BYTES: [u8; 32] = [
    0, 104, 20, 179, 179, 68, 143, 0, 241, 226, 89, 81, 248, 225, 107, 223,
    146, 8, 83, 115, 114, 175, 214, 74, 73, 69, 149, 93, 101, 252, 114, 58,
];

#[verifier::allow_in_spec]
pub fn staking_program_id() -> Pubkey
    returns
        Pubkey(STAKING_PROGRAM_ID_BYTES),
{
    Pubkey(STAKING_PROGRAM_ID_BYTES)
}

/// `5uawA6ehYTu69Ggvm3LSK84qFawPKxbWgfngwj15NRJ`
pub const CONVERSION_VAULT_PROGRAM_ID_BYTES: [u8; 32] = [
    1, 65, 200, 7, 24, 6, 122, 173, 27, 233, 184, 13, 186, 222, 123, 33,
    97, 71, 65, 53, 2, 148, 154, 123, 111, 241, 235, 19, 72, 180, 198, 85,
];

#[verifier::allow_in_spec]
pub fn conversion_vault_program_id() -> Pubkey
    returns
        Pubkey(CONVERSION_VAULT_PROGRAM_ID_BYTES),
{
    Pubkey(CONVERSION_VAULT_PROGRAM_ID_BYTES)
}

// Mints
/// `cRiMEhAxoDhcEuh3Yf7Z2QkXUXUMKbakhcVqmDsqPXc`
pub const CRIME_MINT_BYTES: [u8; 32] = [
    9, 19, 69, 115, 173, 101, 170, 214, 136, 227, 165, 157, 186, 193, 2, 46,
    169, 21, 47, 62, 100, 230, 117, 60, 108, 139, 143, 76, 136, 216, 93, 39,
];

#[verifier::allow_in_spec]
pub fn crime_mint() -> Pubkey
    returns
        Pubkey(CRIME_MINT_BYTES),
{
    Pubkey(CRIME_MINT_BYTES)
}

/// `FraUdp6YhtVJYPxC2w255yAbpTsPqd8Bfhy9rC56jau5`
pub const FRAUD_MINT_BYTES: [u8; 32] = [
    220, 182, 237, 182, 158, 108, 85, 104, 64, 27, 92, 190, 78, 243, 159, 179,
    73, 242, 138, 33, 96, 10, 243, 255, 101, 112, 198, 78, 196, 21, 143, 16,
];

#[verifier::allow_in_spec]
pub fn fraud_mint() -> Pubkey
    returns
        Pubkey(FRAUD_MINT_BYTES),
{
    Pubkey(FRAUD_MINT_BYTES)
}

/// `pRoFiTj36haRD5sG2Neqib9KoSrtdYMGrM7SEkZetfR`
pub const PROFIT_MINT_BYTES: [u8; 32] = [
    12, 38, 86, 44, 251, 238, 253, 162, 240, 140, 94, 68, 79, 173, 75, 100,
    165, 114, 15, 95, 9, 139, 209, 211, 120, 234, 82, 64, 241, 171, 52, 72,
];

#[verifier::allow_in_spec]
pub fn profit_mint() -> Pubkey
    returns
        Pubkey(PROFIT_MINT_BYTES),
{
    Pubkey(PROFIT_MINT_BYTES)
}

/// `So11111111111111111111111111111111111111112`
pub const NATIVE_MINT_BYTES: [u8; 32] = [
    6, 155, 136, 87, 254, 171, 129, 132, 251, 104, 127, 99, 70, 24, 192, 53,
    218, 196, 57, 220, 26, 235, 59, 85, 152, 160, 240, 0, 0, 0, 0, 1,
];

#[verifier::allow_in_spec]
pub fn native_mint() -> Pubkey
    returns
        Pubkey(NATIVE_MINT_BYTES),
{
    Pubkey(NATIVE_MINT_BYTES)
}

// PDAs
/// `FjJrLcmDjA8FtavGWdhJq3pdirAH889oWXc2bhEAMbDU`
pub const EPOCH_STATE_PDA_BYTES: [u8; 32] = [
    218, 218, 49, 219, 109, 199, 216, 177, 103, 0, 108, 124, 18, 148, 116, 188,
    200, 138, 148, 197, 196, 0, 222, 154, 21, 141, 90, 82, 180, 54, 233, 107,
];

#[verifier::allow_in_spec]
pub fn epoch_state_pda() -> Pubkey
    returns
        Pubkey(EPOCH_STATE_PDA_BYTES),
{
    Pubkey(EPOCH_STATE_PDA_BYTES)
}

/// `CoCdbornGtiZ8tLxF5HD2TdGidfgfwbbiDX79BaZGJ2D`
pub const SWAP_AUTHORITY_PDA_BYTES: [u8; 32] = [
    175, 70, 108, 182, 176, 44, 131, 115, 109, 63, 16, 37, 57, 103, 62, 233,
    4, 55, 61, 171, 51, 69, 48, 121, 113, 152, 188, 45, 173, 233, 240, 34,
];

#[verifier::allow_in_spec]
pub fn swap_authority_pda() -> Pubkey
    returns
        Pubkey(SWAP_AUTHORITY_PDA_BYTES),
{
    Pubkey(SWAP_AUTHORITY_PDA_BYTES)
}

/// `8zijSBnoiGQzwccQkdNuAwbZCieDZsxdn2GgKDErCemQ`
pub const TAX_AUTHORITY_PDA_BYTES: [u8; 32] = [
    118, 203, 25, 199, 128, 115, 95, 206, 60, 141, 62, 253, 166, 177, 125, 190,
    114, 229, 126, 43, 244, 91, 3, 76, 57, 186, 179, 154, 242, 112, 202, 43,
];

#[verifier::allow_in_spec]
pub fn tax_authority_pda() -> Pubkey
    returns
        Pubkey(TAX_AUTHORITY_PDA_BYTES),
{
    Pubkey(TAX_AUTHORITY_PDA_BYTES)
}

/// `5BdRPPwEDpHEtRgdp4MfywbwmZnrf6u23bXMnG1w8ViN`
pub const STAKE_POOL_PDA_BYTES: [u8; 32] = [
    62, 39, 188, 141, 72, 122, 67, 5, 108, 21, 56, 41, 81, 252, 37, 218,
    137, 153, 96, 201, 90, 204, 219, 208, 101, 138, 252, 112, 117, 38, 208, 7,
];

#[verifier::allow_in_spec]
pub fn stake_pool_pda() -> Pubkey
    returns
        Pubkey(STAKE_POOL_PDA_BYTES),
{
    Pubkey(STAKE_POOL_PDA_BYTES)
}

/// `E68zPDgzMqnycj23g9T74ioHbDdvq3Npj5tT2yPd1SY`
pub const ESCROW_VAULT_PDA_BYTES: [u8; 32] = [
    3, 90, 92, 27, 12, 244, 217, 195, 151, 174, 124, 156, 138, 64, 33, 37,
    222, 83, 168, 140, 171, 229, 232, 58, 176, 37, 188, 87, 190, 14, 144, 9,
];

#[verifier::allow_in_spec]
pub fn escrow_vault_pda() -> Pubkey
    returns
        Pubkey(ESCROW_VAULT_PDA_BYTES),
{
    Pubkey(ESCROW_VAULT_PDA_BYTES)
}

/// `5988CYMcvJpNtGbtCDnAMxrjrLxRCq3qPME7w2v36aNT`
pub const CARNAGE_SOL_VAULT_PDA_BYTES: [u8; 32] = [
    61, 131, 115, 14, 236, 206, 61, 97, 36, 151, 192, 164, 206, 186, 199, 199,
    80, 118, 15, 186, 97, 120, 127, 57, 185, 162, 254, 204, 91, 178, 34, 200,
];

#[verifier::allow_in_spec]
pub fn carnage_sol_vault_pda() -> Pubkey
    returns
        Pubkey(CARNAGE_SOL_VAULT_PDA_BYTES),
{
    Pubkey(CARNAGE_SOL_VAULT_PDA_BYTES)
}

/// `3ihhwLnEJ2duwPSLYxhLbFrdhhxXLcvcrV9rAHqMgzCv`
pub const TREASURY_BYTES: [u8; 32] = [
    40, 102, 54, 150, 55, 23, 245, 33, 249, 191, 136, 106, 201, 145, 28, 47,
    90, 111, 169, 102, 138, 105, 17, 163, 241, 86, 74, 90, 131, 167, 202, 143,
];

#[verifier::allow_in_spec]
pub fn treasury() -> Pubkey
    returns
        Pubkey(TREASURY_BYTES),
{
    Pubkey(TREASURY_BYTES)
}

/// `2HPNULWVVdTcRiAm2DkghLA6frXxA2Nsu4VRu8a4qQ1s`
pub const WSOL_INTERMEDIARY_PDA_BYTES: [u8; 32] = [
    19, 14, 70, 32, 101, 10, 19, 15, 101, 80, 42, 148, 161, 209, 60, 123,
    117, 168, 207, 29, 197, 210, 200, 46, 185, 251, 98, 225, 192, 80, 48, 126,
];

#[verifier::allow_in_spec]
pub fn wsol_intermediary_pda() -> Pubkey
    returns
        Pubkey(WSOL_INTERMEDIARY_PDA_BYTES),
{
    Pubkey(WSOL_INTERMEDIARY_PDA_BYTES)
}

/// `8vFpSBnCVt8dfX57FKrsGwy39TEo1TjVzrj9QYGxCkcD`
pub const VAULT_CONFIG_PDA_BYTES: [u8; 32] = [
    117, 166, 88, 143, 153, 166, 117, 6, 55, 203, 15, 102, 62, 4, 176, 49,
    133, 28, 0, 38, 121, 109, 38, 60, 54, 80, 234, 91, 168, 50, 26, 206,
];

#[verifier::allow_in_spec]
pub fn vault_config_pda() -> Pubkey
    returns
        Pubkey(VAULT_CONFIG_PDA_BYTES),
{
    Pubkey(VAULT_CONFIG_PDA_BYTES)
}

/// `Gh9QHMY3J2NGyaHFH2XQCWxedf4G7kBfyu7Jonwn1bHA`
pub const VAULT_CRIME_BYTES: [u8; 32] = [
    233, 40, 9, 39, 254, 50, 193, 197, 55, 72, 110, 124, 44, 170, 167, 160,
    162, 168, 86, 92, 42, 79, 46, 127, 99, 245, 190, 43, 141, 55, 215, 65,
];

#[verifier::allow_in_spec]
pub fn vault_crime() -> Pubkey
    returns
        Pubkey(VAULT_CRIME_BYTES),
{
    Pubkey(VAULT_CRIME_BYTES)
}

/// `DLciB9t3qEuRcndGyjRmu1Z34NCwTPvNwbv7eUsFxTZG`
pub const VAULT_FRAUD_BYTES: [u8; 32] = [
    183, 82, 167, 227, 175, 99, 230, 34, 156, 178, 40, 186, 116, 251, 4, 94,
    253, 6, 150, 146, 170, 254, 250, 148, 53, 67, 136, 26, 219, 113, 232, 239,
];

#[verifier::allow_in_spec]
pub fn vault_fraud() -> Pubkey
    returns
        Pubkey(VAULT_FRAUD_BYTES),
{
    Pubkey(VAULT_FRAUD_BYTES)
}

/// `DBMaWgfUW8WBb8VVvqDFkrMpEkPkCPTcLpSpyzHAiwp3`
pub const VAULT_PROFIT_BYTES: [u8; 32] = [
    180, 243, 81, 142, 247, 62, 254, 43, 52, 63, 194, 103, 119, 8, 48, 156,
    162, 52, 180, 202, 179, 121, 26, 210, 167, 41, 158, 107, 141, 6, 29, 120,
];

#[verifier::allow_in_spec]
pub fn vault_profit() -> Pubkey
    returns
        Pubkey(VAULT_PROFIT_BYTES),
{
    Pubkey(VAULT_PROFIT_BYTES)
}

// Pools
/// `ZWUZ3PzGk6bg6g3BS3WdXKbdAecUgZxnruKXQkte7wf`
pub const CRIME_SOL_POOL_BYTES: [u8; 32] = [
    8, 83, 233, 214, 84, 53, 108, 52, 170, 95, 245, 44, 147, 246, 70, 189,
    44, 78, 222, 177, 64, 7, 226, 140, 249, 218, 133, 123, 181, 113, 159, 210,
];

#[verifier::allow_in_spec]
pub fn crime_sol_pool() -> Pubkey
    returns
        Pubkey(CRIME_SOL_POOL_BYTES),
{
    Pubkey(CRIME_SOL_POOL_BYTES)
}

/// `14rFLiXzXk7aXLnwAz2kwQUjG9vauS84AQLu6LH9idUM`
pub const CRIME_SOL_VAULT_A_BYTES: [u8; 32] = [
    0, 252, 109, 44, 111, 67, 178, 192, 2, 77, 72, 165, 64, 57, 41, 175,
    126, 237, 236, 248, 170, 182, 161, 170, 174, 12, 105, 114, 209, 32, 147, 106,
];

#[verifier::allow_in_spec]
pub fn crime_sol_vault_a() -> Pubkey
    returns
        Pubkey(CRIME_SOL_VAULT_A_BYTES),
{
    Pubkey(CRIME_SOL_VAULT_A_BYTES)
}

/// `6s6cprCGxTAYCk9LiwCpCsdHzReW7CLZKqy3ZSCtmV1b`
pub const CRIME_SOL_VAULT_B_BYTES: [u8; 32] = [
    87, 31, 211, 182, 192, 243, 227, 255, 158, 138, 51, 221, 81, 150, 199, 217,
    208, 213, 224, 70, 8, 190, 35, 151, 41, 55, 70, 89, 74, 8, 101, 66,
];

#[verifier::allow_in_spec]
pub fn crime_sol_vault_b() -> Pubkey
    returns
        Pubkey(CRIME_SOL_VAULT_B_BYTES),
{
    Pubkey(CRIME_SOL_VAULT_B_BYTES)
}

/// `AngvViTVGd2zxP8KoFUjGU3TyrQjqeM1idRWiKM8p3mq`
pub const FRAUD_SOL_POOL_BYTES: [u8; 32] = [
    145, 109, 117, 133, 103, 235, 115, 170, 220, 0, 82, 19, 13, 37, 48, 10,
    234, 47, 210, 165, 73, 52, 16, 221, 7, 200, 162, 27, 171, 134, 225, 184,
];

#[verifier::allow_in_spec]
pub fn fraud_sol_pool() -> Pubkey
    returns
        Pubkey(FRAUD_SOL_POOL_BYTES),
{
    Pubkey(FRAUD_SOL_POOL_BYTES)
}

/// `3sUDyw1k61NSKgn2EA9CaS3FbSZAApGeCRNwNFQPwg8o`
pub const FRAUD_SOL_VAULT_A_BYTES: [u8; 32] = [
    42, 165, 50, 69, 214, 61, 224, 229, 53, 78, 225, 7, 251, 227, 194, 91,
    25, 107, 20, 210, 146, 169, 233, 36, 120, 12, 212, 66, 245, 136, 139, 112,
];

#[verifier::allow_in_spec]
pub fn fraud_sol_vault_a() -> Pubkey
    returns
        Pubkey(FRAUD_SOL_VAULT_A_BYTES),
{
    Pubkey(FRAUD_SOL_VAULT_A_BYTES)
}

/// `2nzqXn6FivXjPSgrUGTA58eeVUDjGhvn4QLfhXK1jbjP`
pub const FRAUD_SOL_VAULT_B_BYTES: [u8; 32] = [
    26, 164, 56, 51, 194, 67, 185, 141, 183, 234, 96, 165, 206, 196, 37, 191,
    238, 57, 67, 108, 7, 206, 222, 6, 247, 173, 137, 59, 55, 151, 79, 178,
];

#[verifier::allow_in_spec]
pub fn fraud_sol_vault_b() -> Pubkey
    returns
        Pubkey(FRAUD_SOL_VAULT_B_BYTES),
{
    Pubkey(FRAUD_SOL_VAULT_B_BYTES)
}

// Hook ExtraAccountMetaList PDAs
/// `CStTzemevJvk8vnjw57Wjzk5EFwN12Nmniz6R7qXWykr`
pub const CRIME_HOOK_META_BYTES: [u8; 32] = [
    170, 18, 68, 191, 99, 218, 41, 207, 190, 6, 184, 146, 22, 17, 78, 188,
    195, 71, 155, 164, 111, 183, 179, 24, 215, 49, 10, 200, 244, 28, 50, 183,
];

#[verifier::allow_in_spec]
pub fn crime_hook_meta() -> Pubkey
    returns
        Pubkey(CRIME_HOOK_META_BYTES),
{
    Pubkey(CRIME_HOOK_META_BYTES)
}

/// `7QGodnZAYGgastQMXcitcQjraYCMMNDgbp2uL73qjGkd`
pub const FRAUD_HOOK_META_BYTES: [u8; 32] = [
    95, 28, 89, 143, 198, 226, 19, 157, 171, 176, 74, 175, 227, 209, 215, 59,
    154, 234, 146, 171, 100, 137, 127, 232, 203, 82, 187, 138, 87, 172, 14, 206,
];

#[verifier::allow_in_spec]
pub fn fraud_hook_meta() -> Pubkey
    returns
        Pubkey(FRAUD_HOOK_META_BYTES),
{
    Pubkey(FRAUD_HOOK_META_BYTES)
}

/// `J4dubfKw7vnZLhpPfMHqz8PcYWaChugnnSGUgGDzQ9AB`
pub const PROFIT_HOOK_META_BYTES: [u8; 32] = [
    253, 133, 38, 160, 176, 9, 90, 162, 183, 149, 64, 129, 69, 238, 225, 254,
    48, 42, 163, 223, 84, 1, 41, 182, 204, 14, 53, 235, 5, 14, 133, 28,
];

#[verifier::allow_in_spec]
pub fn profit_hook_meta() -> Pubkey
    returns
        Pubkey(PROFIT_HOOK_META_BYTES),
{
    Pubkey(PROFIT_HOOK_META_BYTES)
}

// Standard Programs
/// `TokenkegQfeZyiNwAJbNbGKPFXCWuBvf9Ss623VQ5DA`
pub const SPL_TOKEN_PROGRAM_ID_BYTES: [u8; 32] = [
    6, 221, 246, 225, 215, 101, 161, 147, 217, 203, 225, 70, 206, 235, 121, 172,
    28, 180, 133, 237, 95, 91, 55, 145, 58, 140, 245, 133, 126, 255, 0, 169,
];

#[verifier::allow_in_spec]
pub fn spl_token_program_id() -> Pubkey
    returns
        Pubkey(SPL_TOKEN_PROGRAM_ID_BYTES),
{
    Pubkey(SPL_TOKEN_PROGRAM_ID_BYTES)
}

/// `TokenzQdBNbLqP5VEhdkAS6EPFLC1PHnBqCXEpPxuEb`
pub const TOKEN_2022_PROGRAM_ID_BYTES: [u8; 32] = [
    6, 221, 246, 225, 238, 117, 143, 222, 24, 66, 93, 188, 228, 108, 205, 218,
    182, 26, 252, 77, 131, 185, 13, 39, 254, 189, 249, 40, 216, 161, 139, 252,
];

#[verifier::allow_in_spec]
pub fn token_2022_program_id() -> Pubkey
    returns
        Pubkey(TOKEN_2022_PROGRAM_ID_BYTES),
{
    Pubkey(TOKEN_2022_PROGRAM_ID_BYTES)
}

/// `11111111111111111111111111111111`
pub const SYSTEM_PROGRAM_ID_BYTES: [u8; 32] = [
    0, 0, 0, 0, 0, 0, 0, 0, 0, 0, 0, 0, 0, 0, 0, 0,
    0, 0, 0, 0, 0, 0, 0, 0, 0, 0, 0, 0, 0, 0, 0, 0,
];

#[verifier::allow_in_spec]
pub fn system_program_id() -> Pubkey
    returns
        Pubkey(SYSTEM_PROGRAM_ID_BYTES),
{
    Pubkey(SYSTEM_PROGRAM_ID_BYTES)
}

// Address Lookup Table
/// Protocol-wide ALT containing all program IDs, PDAs, pool addresses,
/// mints, and vaults. Enables v0 transactions for the sell path (25 accounts).
/// `7dy5NNvacB8YkZrc3c96vDMDtacXzxVpdPLiC4B7LJ4h`
pub const PROTOCOL_ALT_BYTES: [u8; 32] = [
    98, 158, 111, 108, 169, 60, 73, 38, 154, 236, 8, 195, 157, 150, 186, 75,
    39, 238, 57, 26, 35, 215, 124, 142, 9, 196, 228, 74, 218, 73, 157, 18,
];

#[verifier::allow_in_spec]
pub fn protocol_alt() -> Pubkey
    returns
        Pubkey(PROTOCOL_ALT_BYTES),
{
    Pubkey(PROTOCOL_ALT_BYTES)
}

} // verus!
