use titan_integration_template::drfraudsworth::accounts::addresses::{swap_authority_pda, tax_program_id};
use titan_integration_template::drfraudsworth::accounts::sol_pool_accounts::{
    build_buy_account_metas, build_sell_account_metas,
};
use titan_integration_template::trading_venue::Pubkey;

fn unique() -> Pubkey {
    Pubkey(solana_pubkey::Pubkey::new_unique().to_bytes())
}

#[test]
fn buy_metas_has_24_accounts() {
    let metas = build_buy_account_metas(&unique(), &unique(), &unique(), true).unwrap();
    assert_eq!(metas.len(), 24);
}

#[test]
fn sell_metas_has_25_accounts() {
    let metas = build_sell_account_metas(&unique(), &unique(), &unique(), true).unwrap();
    assert_eq!(metas.len(), 25);
}

#[test]
fn sell_swap_authority_is_mutable() {
    let metas = build_sell_account_metas(&unique(), &unique(), &unique(), true).unwrap();
    assert_eq!(metas[2].pubkey, swap_authority_pda());
    assert!(metas[2].is_writable);
}

#[test]
fn buy_swap_authority_is_readonly() {
    let metas = build_buy_account_metas(&unique(), &unique(), &unique(), true).unwrap();
    assert_eq!(metas[2].pubkey, swap_authority_pda());
    assert!(!metas[2].is_writable);
}

#[test]
fn buy_metas_start_with_the_signing_user() {
    let user = unique();
    let metas = build_buy_account_metas(&user, &unique(), &unique(), false).unwrap();
    assert_eq!(metas[0].pubkey, user);
    assert!(metas[0].is_signer);
    assert!(metas.iter().filter(|m| m.is_signer).count() == 1);
    assert!(metas.iter().all(|m| m.pubkey != tax_program_id()));
}
