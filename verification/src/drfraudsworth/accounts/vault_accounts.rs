//! Account metas of the Conversion Vault's `convert_v2` instruction:
//! 9 named accounts, then the hook accounts of the input and output mints.

use vstd::prelude::*;

use super::addresses::{
    crime_mint, fraud_mint, profit_mint, token_2022_program_id, vault_config_pda, vault_crime,
    vault_fraud, vault_profit,
};
use super::hook_accounts::{hook_count, hook_metas_for_mint, hook_metas_spec};
use super::sol_pool_accounts::{ro, signer_w, w};
use crate::trading_venue::{metas_view, AccountMeta, Pubkey};

verus! {

/// The vault's token account for a protocol mint, if it has one.
pub open spec fn vault_token_account_spec(mint: Pubkey) -> Option<Pubkey> {
    if mint == crime_mint() {
        Some(vault_crime())
    } else if mint == fraud_mint() {
        Some(vault_fraud())
    } else if mint == profit_mint() {
        Some(vault_profit())
    } else {
        None
    }
}

/// The 9 named accounts of `convert_v2`.
pub open spec fn vault_named_metas(
    user: Pubkey,
    user_input_ata: Pubkey,
    user_output_ata: Pubkey,
    input_mint: Pubkey,
    output_mint: Pubkey,
) -> Seq<AccountMeta> {
    seq![
        signer_w(user), ro(vault_config_pda()), w(user_input_ata), w(user_output_ata),
        ro(input_mint), ro(output_mint), w(vault_token_account_spec(input_mint)->0),
        w(vault_token_account_spec(output_mint)->0), ro(token_2022_program_id()),
    ]
}

/// The vault's token account for `mint`. Only CRIME, FRAUD and PROFIT have one.
pub fn vault_token_account(mint: &Pubkey) -> (r: Pubkey)
    requires
        vault_token_account_spec(*mint) is Some,
    ensures
        r == vault_token_account_spec(*mint)->0,
{
    if *mint == crime_mint() {
        vault_crime()
    } else if *mint == fraud_mint() {
        vault_fraud()
    } else {
        vault_profit()
    }
}

/// The 9 named + 8 hook = 17 account metas of `convert_v2`.
///
/// `None` exactly when a whitelist PDA of the hook accounts cannot be derived.
pub fn build_vault_account_metas(
    user: &Pubkey,
    user_input_ata: &Pubkey,
    user_output_ata: &Pubkey,
    input_mint: &Pubkey,
    output_mint: &Pubkey,
) -> (r: Option<Vec<AccountMeta>>)
    requires
        vault_token_account_spec(*input_mint) is Some,
        vault_token_account_spec(*output_mint) is Some,
    ensures
        ({
            let named = vault_named_metas(*user, *user_input_ata, *user_output_ata, *input_mint, *output_mint);
            let vault_input = vault_token_account_spec(*input_mint)->0;
            let vault_output = vault_token_account_spec(*output_mint)->0;
            match metas_view(r) {
                Some(m) => {
                    let k = 9 + hook_count(*input_mint);
                    &&& k <= m.len()
                    &&& m.subrange(0, 9) == named
                    &&& hook_metas_spec(*input_mint, *user_input_ata, vault_input, Some(m.subrange(9, k)))
                    &&& hook_metas_spec(*output_mint, vault_output, *user_output_ata, Some(m.subrange(k, m.len() as int)))
                },
                None => hook_metas_spec(*input_mint, *user_input_ata, vault_input, None)
                    || hook_metas_spec(*output_mint, vault_output, *user_output_ata, None),
            }
        }),
{
    let vault_input = vault_token_account(input_mint);
    let vault_output = vault_token_account(output_mint);
    let mut metas: Vec<AccountMeta> = Vec::new();
    metas.push(AccountMeta::new(*user, true));
    metas.push(AccountMeta::new_readonly(vault_config_pda(), false));
    metas.push(AccountMeta::new(*user_input_ata, false));
    metas.push(AccountMeta::new(*user_output_ata, false));
    metas.push(AccountMeta::new_readonly(*input_mint, false));
    metas.push(AccountMeta::new_readonly(*output_mint, false));
    metas.push(AccountMeta::new(vault_input, false));
    metas.push(AccountMeta::new(vault_output, false));
    metas.push(AccountMeta::new_readonly(token_2022_program_id(), false));
    let ghost named = metas@;
    assert(named =~= vault_named_metas(*user, *user_input_ata, *user_output_ata, *input_mint, *output_mint));
    let input_hooks = hook_metas_for_mint(input_mint, user_input_ata, &vault_input);
    let output_hooks = hook_metas_for_mint(output_mint, &vault_output, user_output_ata);
    match (input_hooks, output_hooks) {
        (Some(ih), Some(oh)) => {
            let ghost ihv = ih@;
            let ghost ohv = oh@;
            let mut ih = ih;
            let mut oh = oh;
            metas.append(&mut ih);
            metas.append(&mut oh);
            proof {
                let k: int = 9 + ihv.len() as int;
                assert(metas@.subrange(0, 9) =~= named);
                assert(metas@.subrange(9, k) =~= ihv);
                assert(metas@.subrange(k, metas@.len() as int) =~= ohv);
            }
            Some(metas)
        },
        _ => None,
    }
}

/// The named `convert_v2` accounts by position: the signing user, the vault
/// config, the user's input and output token accounts, the two mints, then the
/// vault's token account of the input mint (index 6) and of the output mint
/// (index 7), both writable, and Token-2022.
pub proof fn lemma_vault_accounts_by_index(user: Pubkey, user_input_ata: Pubkey, user_output_ata: Pubkey, input_mint: Pubkey, output_mint: Pubkey)
    ensures
        ({
            let m = vault_named_metas(user, user_input_ata, user_output_ata, input_mint, output_mint);
            &&& m.len() == 9
            &&& m[0] == (AccountMeta { pubkey: user, is_signer: true, is_writable: true })
            &&& m[2] == (AccountMeta { pubkey: user_input_ata, is_signer: false, is_writable: true })
            &&& m[3] == (AccountMeta { pubkey: user_output_ata, is_signer: false, is_writable: true })
            &&& m[4] == (AccountMeta { pubkey: input_mint, is_signer: false, is_writable: false })
            &&& m[5] == (AccountMeta { pubkey: output_mint, is_signer: false, is_writable: false })
            &&& input_mint == crime_mint() ==> m[6] == (AccountMeta { pubkey: vault_crime(), is_signer: false, is_writable: true })
            &&& input_mint == fraud_mint() ==> m[6] == (AccountMeta { pubkey: vault_fraud(), is_signer: false, is_writable: true })
            &&& input_mint == profit_mint() ==> m[6] == (AccountMeta { pubkey: vault_profit(), is_signer: false, is_writable: true })
            &&& output_mint == crime_mint() ==> m[7] == (AccountMeta { pubkey: vault_crime(), is_signer: false, is_writable: true })
            &&& output_mint == fraud_mint() ==> m[7] == (AccountMeta { pubkey: vault_fraud(), is_signer: false, is_writable: true })
            &&& output_mint == profit_mint() ==> m[7] == (AccountMeta { pubkey: vault_profit(), is_signer: false, is_writable: true })
        }),
{
    crate::drfraudsworth::math::vault_math::lemma_protocol_mints_distinct();
}

} // verus!
