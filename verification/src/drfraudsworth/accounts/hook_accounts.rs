//! Transfer-hook extra account metas for the Token-2022 mints.
//!
//! Each Token-2022 mint of the protocol needs four extra read-only accounts on
//! `transfer_checked`: its ExtraAccountMetaList PDA, the whitelist PDAs of the
//! source and destination token accounts, and the Transfer Hook program.
//! The native mint (SPL Token, no hook) needs none.

use vstd::prelude::*;

use super::addresses::{
    crime_hook_meta, crime_mint, fraud_hook_meta, fraud_mint, native_mint, profit_hook_meta,
    profit_mint, transfer_hook_program_id,
};
use crate::pda::{program_address, seed_views, try_find_program_address};
use crate::trading_venue::{metas_view, AccountMeta, Pubkey};

verus! {

/// The bytes of `"whitelist"`, the seed prefix of whitelist PDAs.
pub const WHITELIST_SEED: [u8; 9] = [119, 104, 105, 116, 101, 108, 105, 115, 116];

/// The ExtraAccountMetaList PDA of a hooked protocol mint.
pub open spec fn hook_meta_list(mint: Pubkey) -> Option<Pubkey> {
    if mint == crime_mint() {
        Some(crime_hook_meta())
    } else if mint == fraud_mint() {
        Some(fraud_hook_meta())
    } else if mint == profit_mint() {
        Some(profit_hook_meta())
    } else {
        None
    }
}

/// How many hook metas a transfer of `mint` needs: 4 for a hooked protocol mint, else 0.
pub open spec fn hook_count(mint: Pubkey) -> int {
    if mint == native_mint() || hook_meta_list(mint) is None { 0 } else { 4 }
}

/// The whitelist PDA search for a token account under the Transfer Hook program.
pub open spec fn whitelist_pda(token_account: Pubkey) -> Option<(Seq<u8>, u8)> {
    program_address(seq![WHITELIST_SEED@, token_account.0@], transfer_hook_program_id().0@)
}

/// `m` references `key` read-only, without a signature.
pub open spec fn readonly_meta(m: AccountMeta, key: Seq<u8>) -> bool {
    m.pubkey.0@ == key && !m.is_signer && !m.is_writable
}

/// The hook metas of `mint` for a transfer from `source` to `dest`:
/// none for the native mint or an unknown mint; otherwise the meta list, the
/// two whitelist PDAs and the hook program, all read-only. `None` when a
/// whitelist PDA cannot be derived.
pub open spec fn hook_metas_spec(mint: Pubkey, source: Pubkey, dest: Pubkey, r: Option<Seq<AccountMeta>>) -> bool {
    if mint == native_mint() || hook_meta_list(mint) is None {
        r == Some(Seq::<AccountMeta>::empty())
    } else if whitelist_pda(source) is None || whitelist_pda(dest) is None {
        r is None
    } else {
        &&& r is Some
        &&& r->0.len() == 4
        &&& readonly_meta(r->0[0], hook_meta_list(mint).unwrap().0@)
        &&& readonly_meta(r->0[1], whitelist_pda(source).unwrap().0)
        &&& readonly_meta(r->0[2], whitelist_pda(dest).unwrap().0)
        &&& readonly_meta(r->0[3], transfer_hook_program_id().0@)
    }
}

/// Derive the whitelist PDA of a token account.
fn find_whitelist_pda(token_account: &Pubkey) -> (r: Option<Pubkey>)
    ensures
        r is None <==> whitelist_pda(*token_account) is None,
        r matches Some(k) ==> k.0@ == whitelist_pda(*token_account).unwrap().0,
{
    let seeds: [&[u8]; 2] = [&WHITELIST_SEED, &token_account.0];
    let found = try_find_program_address(&seeds, &transfer_hook_program_id());
    assert(seed_views(seeds@) =~= seq![WHITELIST_SEED@, token_account.0@]);
    match found {
        Some((key, _)) => Some(key),
        None => None,
    }
}

/// The transfer-hook extra account metas for `mint` on a transfer from
/// `source_token_account` to `dest_token_account`.
pub fn hook_metas_for_mint(mint: &Pubkey, source_token_account: &Pubkey, dest_token_account: &Pubkey) -> (r: Option<Vec<AccountMeta>>)
    ensures
        hook_metas_spec(*mint, *source_token_account, *dest_token_account, metas_view(r)),
{
    if *mint == native_mint() {
        return Some(Vec::new());
    }
    let meta_list = if *mint == crime_mint() {
        crime_hook_meta()
    } else if *mint == fraud_mint() {
        fraud_hook_meta()
    } else if *mint == profit_mint() {
        profit_hook_meta()
    } else {
        return Some(Vec::new());
    };
    let wl_source = match find_whitelist_pda(source_token_account) {
        Some(k) => k,
        None => return None,
    };
    let wl_dest = match find_whitelist_pda(dest_token_account) {
        Some(k) => k,
        None => return None,
    };
    let mut metas: Vec<AccountMeta> = Vec::new();
    metas.push(AccountMeta::new_readonly(meta_list, false));
    metas.push(AccountMeta::new_readonly(wl_source, false));
    metas.push(AccountMeta::new_readonly(wl_dest, false));
    metas.push(AccountMeta::new_readonly(transfer_hook_program_id(), false));
    Some(metas)
}

} // verus!
