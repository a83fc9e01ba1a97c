//! Account metas of the Tax Program's SOL pool swap instructions.
//!
//! `SwapSolBuy` takes 20 named accounts and `SwapSolSell` 21, each followed by
//! the 4 transfer-hook accounts of the pool's token.

use vstd::prelude::*;

use super::addresses::{
    amm_program_id, carnage_sol_vault_pda, crime_mint, crime_sol_pool, crime_sol_vault_a,
    crime_sol_vault_b, epoch_state_pda, escrow_vault_pda, fraud_mint, fraud_sol_pool,
    fraud_sol_vault_a, fraud_sol_vault_b, native_mint, spl_token_program_id, stake_pool_pda,
    staking_program_id, swap_authority_pda, system_program_id, tax_authority_pda,
    token_2022_program_id, treasury, wsol_intermediary_pda,
};
use super::hook_accounts::{hook_metas_for_mint, hook_metas_spec};
use crate::trading_venue::{metas_view, AccountMeta, Pubkey};

verus! {

/// A writable reference.
pub open spec fn w(k: Pubkey) -> AccountMeta {
    AccountMeta { pubkey: k, is_signer: false, is_writable: true }
}

/// A read-only reference.
pub open spec fn ro(k: Pubkey) -> AccountMeta {
    AccountMeta { pubkey: k, is_signer: false, is_writable: false }
}

/// A writable, signing reference.
pub open spec fn signer_w(k: Pubkey) -> AccountMeta {
    AccountMeta { pubkey: k, is_signer: true, is_writable: true }
}

/// `(pool, vault_a, vault_b, token_mint)` of the CRIME/SOL or FRAUD/SOL pool.
pub open spec fn pool_addresses_spec(is_crime: bool) -> (Pubkey, Pubkey, Pubkey, Pubkey) {
    if is_crime {
        (crime_sol_pool(), crime_sol_vault_a(), crime_sol_vault_b(), crime_mint())
    } else {
        (fraud_sol_pool(), fraud_sol_vault_a(), fraud_sol_vault_b(), fraud_mint())
    }
}

/// The 20 named accounts of `SwapSolBuy`.
pub open spec fn buy_named_metas(user: Pubkey, user_wsol_ata: Pubkey, user_token_ata: Pubkey, is_crime: bool) -> Seq<AccountMeta> {
    let (pool, vault_a, vault_b, token_mint) = pool_addresses_spec(is_crime);
    seq![
        signer_w(user), ro(epoch_state_pda()), ro(swap_authority_pda()), ro(tax_authority_pda()),
        w(pool), w(vault_a), w(vault_b), ro(native_mint()), ro(token_mint), w(user_wsol_ata),
        w(user_token_ata), w(stake_pool_pda()), w(escrow_vault_pda()), w(carnage_sol_vault_pda()),
        w(treasury()), ro(amm_program_id()), ro(spl_token_program_id()), ro(token_2022_program_id()),
        ro(system_program_id()), ro(staking_program_id()),
    ]
}

/// The 21 named accounts of `SwapSolSell`: the swap authority is writable and
/// the WSOL intermediary joins after the treasury.
pub open spec fn sell_named_metas(user: Pubkey, user_token_ata: Pubkey, user_wsol_ata: Pubkey, is_crime: bool) -> Seq<AccountMeta> {
    let (pool, vault_a, vault_b, token_mint) = pool_addresses_spec(is_crime);
    seq![
        signer_w(user), ro(epoch_state_pda()), w(swap_authority_pda()), ro(tax_authority_pda()),
        w(pool), w(vault_a), w(vault_b), ro(native_mint()), ro(token_mint), w(user_wsol_ata),
        w(user_token_ata), w(stake_pool_pda()), w(escrow_vault_pda()), w(carnage_sol_vault_pda()),
        w(treasury()), w(wsol_intermediary_pda()), ro(amm_program_id()), ro(spl_token_program_id()),
        ro(token_2022_program_id()), ro(system_program_id()), ro(staking_program_id()),
    ]
}

/// `r` is `named` followed by the hook metas of a transfer of `mint` from `source` to `dest`,
/// or `None` exactly when those hook metas cannot be derived.
pub open spec fn named_then_hooks(named: Seq<AccountMeta>, mint: Pubkey, source: Pubkey, dest: Pubkey, r: Option<Seq<AccountMeta>>) -> bool {
    match r {
        Some(m) => m.len() >= named.len() && m.subrange(0, named.len() as int) == named
            && hook_metas_spec(mint, source, dest, Some(m.subrange(named.len() as int, m.len() as int))),
        None => hook_metas_spec(mint, source, dest, None),
    }
}

/// `(pool, vault_a, vault_b, token_mint)` of the CRIME/SOL or FRAUD/SOL pool.
pub fn pool_addresses(is_crime: bool) -> (r: (Pubkey, Pubkey, Pubkey, Pubkey))
    ensures
        r == pool_addresses_spec(is_crime),
{
    if is_crime {
        (crime_sol_pool(), crime_sol_vault_a(), crime_sol_vault_b(), crime_mint())
    } else {
        (fraud_sol_pool(), fraud_sol_vault_a(), fraud_sol_vault_b(), fraud_mint())
    }
}

/// Append `hooks` (if derived) to `metas`.
fn with_hooks(metas: Vec<AccountMeta>, hooks: Option<Vec<AccountMeta>>) -> (r: Option<Vec<AccountMeta>>)
    ensures
        hooks is None ==> r is None,
        hooks matches Some(h) ==> r matches Some(m) && m@ == metas@ + h@,
{
    match hooks {
        Some(h) => {
            let mut metas = metas;
            let mut h = h;
            metas.append(&mut h);
            Some(metas)
        },
        None => None,
    }
}

/// The 20 named + 4 hook = 24 account metas of `SwapSolBuy` (SOL -> token).
///
/// `None` exactly when a whitelist PDA of the hook accounts cannot be derived.
pub fn build_buy_account_metas(user: &Pubkey, user_wsol_ata: &Pubkey, user_token_ata: &Pubkey, is_crime: bool) -> (r: Option<Vec<AccountMeta>>)
    ensures
        named_then_hooks(
            buy_named_metas(*user, *user_wsol_ata, *user_token_ata, is_crime),
            pool_addresses_spec(is_crime).3,
            pool_addresses_spec(is_crime).2,
            *user_token_ata,
            metas_view(r),
        ),
{
    let (pool, vault_a, vault_b, token_mint) = pool_addresses(is_crime);
    let mut metas: Vec<AccountMeta> = Vec::new();
    metas.push(AccountMeta::new(*user, true));
    metas.push(AccountMeta::new_readonly(epoch_state_pda(), false));
    metas.push(AccountMeta::new_readonly(swap_authority_pda(), false));
    metas.push(AccountMeta::new_readonly(tax_authority_pda(), false));
    metas.push(AccountMeta::new(pool, false));
    metas.push(AccountMeta::new(vault_a, false));
    metas.push(AccountMeta::new(vault_b, false));
    metas.push(AccountMeta::new_readonly(native_mint(), false));
    metas.push(AccountMeta::new_readonly(token_mint, false));
    metas.push(AccountMeta::new(*user_wsol_ata, false));
    metas.push(AccountMeta::new(*user_token_ata, false));
    metas.push(AccountMeta::new(stake_pool_pda(), false));
    metas.push(AccountMeta::new(escrow_vault_pda(), false));
    metas.push(AccountMeta::new(carnage_sol_vault_pda(), false));
    metas.push(AccountMeta::new(treasury(), false));
    metas.push(AccountMeta::new_readonly(amm_program_id(), false));
    metas.push(AccountMeta::new_readonly(spl_token_program_id(), false));
    metas.push(AccountMeta::new_readonly(token_2022_program_id(), false));
    metas.push(AccountMeta::new_readonly(system_program_id(), false));
    metas.push(AccountMeta::new_readonly(staking_program_id(), false));
    assert(metas@ =~= buy_named_metas(*user, *user_wsol_ata, *user_token_ata, is_crime));
    let hooks = hook_metas_for_mint(&token_mint, &vault_b, user_token_ata);
    let r = with_hooks(metas, hooks);
    proof {
        if r is Some {
            assert(r->0@.subrange(0, 20) =~= buy_named_metas(*user, *user_wsol_ata, *user_token_ata, is_crime));
            assert(r->0@.subrange(20, r->0@.len() as int) =~= hooks->0@);
        }
    }
    r
}

/// The 21 named + 4 hook = 25 account metas of `SwapSolSell` (token -> SOL).
///
/// `None` exactly when a whitelist PDA of the hook accounts cannot be derived.
pub fn build_sell_account_metas(user: &Pubkey, user_token_ata: &Pubkey, user_wsol_ata: &Pubkey, is_crime: bool) -> (r: Option<Vec<AccountMeta>>)
    ensures
        named_then_hooks(
            sell_named_metas(*user, *user_token_ata, *user_wsol_ata, is_crime),
            pool_addresses_spec(is_crime).3,
            *user_token_ata,
            pool_addresses_spec(is_crime).2,
            metas_view(r),
        ),
{
    let (pool, vault_a, vault_b, token_mint) = pool_addresses(is_crime);
    let mut metas: Vec<AccountMeta> = Vec::new();
    metas.push(AccountMeta::new(*user, true));
    metas.push(AccountMeta::new_readonly(epoch_state_pda(), false));
    metas.push(AccountMeta::new(swap_authority_pda(), false));
    metas.push(AccountMeta::new_readonly(tax_authority_pda(), false));
    metas.push(AccountMeta::new(pool, false));
    metas.push(AccountMeta::new(vault_a, false));
    metas.push(AccountMeta::new(vault_b, false));
    metas.push(AccountMeta::new_readonly(native_mint(), false));
    metas.push(AccountMeta::new_readonly(token_mint, false));
    metas.push(AccountMeta::new(*user_wsol_ata, false));
    metas.push(AccountMeta::new(*user_token_ata, false));
    metas.push(AccountMeta::new(stake_pool_pda(), false));
    metas.push(AccountMeta::new(escrow_vault_pda(), false));
    metas.push(AccountMeta::new(carnage_sol_vault_pda(), false));
    metas.push(AccountMeta::new(treasury(), false));
    metas.push(AccountMeta::new(wsol_intermediary_pda(), false));
    metas.push(AccountMeta::new_readonly(amm_program_id(), false));
    metas.push(AccountMeta::new_readonly(spl_token_program_id(), false));
    metas.push(AccountMeta::new_readonly(token_2022_program_id(), false));
    metas.push(AccountMeta::new_readonly(system_program_id(), false));
    metas.push(AccountMeta::new_readonly(staking_program_id(), false));
    assert(metas@ =~= sell_named_metas(*user, *user_token_ata, *user_wsol_ata, is_crime));
    let hooks = hook_metas_for_mint(&token_mint, user_token_ata, &vault_b);
    let r = with_hooks(metas, hooks);
    proof {
        if r is Some {
            assert(r->0@.subrange(0, 21) =~= sell_named_metas(*user, *user_token_ata, *user_wsol_ata, is_crime));
            assert(r->0@.subrange(21, r->0@.len() as int) =~= hooks->0@);
        }
    }
    r
}

/// The named `SwapSolSell` accounts by position: the signing user, the
/// writable swap authority, then the pool and its vault A and vault B (all
/// writable), the SOL and token mints, the user's WSOL and token accounts, and
/// the WSOL intermediary after the treasury.
pub proof fn lemma_sell_accounts_by_index(user: Pubkey, user_token_ata: Pubkey, user_wsol_ata: Pubkey, is_crime: bool)
    ensures
        ({
            let m = sell_named_metas(user, user_token_ata, user_wsol_ata, is_crime);
            let pool = if is_crime { crime_sol_pool() } else { fraud_sol_pool() };
            let vault_a = if is_crime { crime_sol_vault_a() } else { fraud_sol_vault_a() };
            let vault_b = if is_crime { crime_sol_vault_b() } else { fraud_sol_vault_b() };
            let token_mint = if is_crime { crime_mint() } else { fraud_mint() };
            &&& m.len() == 21
            &&& m[0] == (AccountMeta { pubkey: user, is_signer: true, is_writable: true })
            &&& m[2] == (AccountMeta { pubkey: swap_authority_pda(), is_signer: false, is_writable: true })
            &&& m[4] == (AccountMeta { pubkey: pool, is_signer: false, is_writable: true })
            &&& m[5] == (AccountMeta { pubkey: vault_a, is_signer: false, is_writable: true })
            &&& m[6] == (AccountMeta { pubkey: vault_b, is_signer: false, is_writable: true })
            &&& m[7] == (AccountMeta { pubkey: native_mint(), is_signer: false, is_writable: false })
            &&& m[8] == (AccountMeta { pubkey: token_mint, is_signer: false, is_writable: false })
            &&& m[9] == (AccountMeta { pubkey: user_wsol_ata, is_signer: false, is_writable: true })
            &&& m[10] == (AccountMeta { pubkey: user_token_ata, is_signer: false, is_writable: true })
            &&& m[14] == (AccountMeta { pubkey: treasury(), is_signer: false, is_writable: true })
            &&& m[15] == (AccountMeta { pubkey: wsol_intermediary_pda(), is_signer: false, is_writable: true })
        }),
{
}

/// The named `SwapSolBuy` accounts by position: the signing user, the
/// read-only swap authority, then the pool and its vault A and vault B (all
/// writable), the SOL and token mints, and the user's WSOL and token accounts.
pub proof fn lemma_buy_accounts_by_index(user: Pubkey, user_wsol_ata: Pubkey, user_token_ata: Pubkey, is_crime: bool)
    ensures
        ({
            let m = buy_named_metas(user, user_wsol_ata, user_token_ata, is_crime);
            let pool = if is_crime { crime_sol_pool() } else { fraud_sol_pool() };
            let vault_a = if is_crime { crime_sol_vault_a() } else { fraud_sol_vault_a() };
            let vault_b = if is_crime { crime_sol_vault_b() } else { fraud_sol_vault_b() };
            let token_mint = if is_crime { crime_mint() } else { fraud_mint() };
            &&& m.len() == 20
            &&& m[0] == (AccountMeta { pubkey: user, is_signer: true, is_writable: true })
            &&& m[2] == (AccountMeta { pubkey: swap_authority_pda(), is_signer: false, is_writable: false })
            &&& m[4] == (AccountMeta { pubkey: pool, is_signer: false, is_writable: true })
            &&& m[5] == (AccountMeta { pubkey: vault_a, is_signer: false, is_writable: true })
            &&& m[6] == (AccountMeta { pubkey: vault_b, is_signer: false, is_writable: true })
            &&& m[7] == (AccountMeta { pubkey: native_mint(), is_signer: false, is_writable: false })
            &&& m[8] == (AccountMeta { pubkey: token_mint, is_signer: false, is_writable: false })
            &&& m[9] == (AccountMeta { pubkey: user_wsol_ata, is_signer: false, is_writable: true })
            &&& m[10] == (AccountMeta { pubkey: user_token_ata, is_signer: false, is_writable: true })
        }),
{
}

} // verus!
