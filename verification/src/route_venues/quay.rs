//! The Quay venue adapter of the route program: serializes Quay's exact-in
//! `swap` instruction and forwards the route-assembled account metas.

use vstd::prelude::*;

use crate::le_bytes::{push_u64_le, u64_le};
use crate::trading_venue::{AccountMeta, Instruction, Pubkey, TradingVenueError};

verus! {

/// `QUayE6nexQWYNZAEqfN8FxoNwQDSu3CAzT2qq9J1ArG`, Quay's mainnet program id.
pub const PROGRAM_ID_BYTES: [u8; 32] = [
    6, 3, 140, 194, 13, 11, 173, 179, 225, 65, 181, 89, 221, 52, 130, 120,
    53, 35, 240, 157, 132, 75, 215, 51, 58, 201, 32, 248, 208, 22, 49, 125,
];

/// Quay's mainnet program id.
#[verifier::allow_in_spec]
pub fn program_id() -> Pubkey
    returns
        Pubkey(PROGRAM_ID_BYTES),
{
    Pubkey(PROGRAM_ID_BYTES)
}

/// Discriminator of Quay's `swap` instruction.
pub const SWAP_DISCRIMINATOR: u8 = 0x20;

/// `[0x20][amount_in u64 LE][min_amount_out = 0 u64 LE][side u8]`, where side
/// is 0 (sell base) when `sell_base` and 1 (buy base) otherwise.
pub open spec fn swap_data_spec(sell_base: bool, amount_in: u64) -> Seq<u8> {
    seq![SWAP_DISCRIMINATOR] + u64_le(amount_in) + u64_le(0) + seq![if sell_base { 0u8 } else { 1u8 }]
}

/// Build Quay's exact-in `swap` instruction for one route leg. The account
/// metas pass through unchanged; the minimum output is 0 because the route
/// enforces slippage.
pub fn swap(sell_base: bool, amount_in: u64, account_metas: &[AccountMeta]) -> (r: Result<Vec<Instruction>, TradingVenueError>)
    ensures
        r matches Ok(v) && v@.len() == 1 && v@[0].program_id == program_id()
            && v@[0].accounts@ == account_metas@ && v@[0].data@ == swap_data_spec(sell_base, amount_in),
{
    let side: u8 = if sell_base { 0 } else { 1 };
    let mut data: Vec<u8> = Vec::with_capacity(1 + 8 + 8 + 1);
    data.push(SWAP_DISCRIMINATOR);
    push_u64_le(&mut data, amount_in);
    push_u64_le(&mut data, 0);
    data.push(side);

    let mut accounts: Vec<AccountMeta> = Vec::new();
    let mut i: usize = 0;
    while i < account_metas.len()
        invariant
            0 <= i <= account_metas@.len(),
            accounts@ == account_metas@.take(i as int),
        decreases account_metas@.len() - i,
    {
        accounts.push(account_metas[i]);
        i = i + 1;
        assert(accounts@ =~= account_metas@.take(i as int));
    }
    assert(account_metas@.take(i as int) =~= account_metas@);
    assert(data@ =~= swap_data_spec(sell_base, amount_in));
    let mut out = Vec::new();
    out.push(Instruction { program_id: program_id(), accounts, data });
    Ok(out)
}

} // verus!
