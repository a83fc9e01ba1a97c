use titan_integration_template::drfraudsworth::accounts::addresses::{crime_mint, fraud_mint, native_mint, profit_mint};
use titan_integration_template::drfraudsworth::token_info_builder::token_info_for_mint;
use titan_integration_template::trading_venue::Pubkey;

fn unique() -> Pubkey {
    Pubkey(solana_pubkey::Pubkey::new_unique().to_bytes())
}

#[test]
fn sol_is_not_token_2022() {
    let info = token_info_for_mint(&native_mint()).unwrap();
    assert!(!info.is_token_2022);
    assert_eq!(info.decimals, 9);
    assert!(info.transfer_fee.is_none());
}

#[test]
fn crime_is_token_2022_no_transfer_fee() {
    let info = token_info_for_mint(&crime_mint()).unwrap();
    assert!(info.is_token_2022);
    assert_eq!(info.decimals, 6);
    assert!(info.transfer_fee.is_none());
}

#[test]
fn fraud_is_token_2022_no_transfer_fee() {
    let info = token_info_for_mint(&fraud_mint()).unwrap();
    assert!(info.is_token_2022);
    assert_eq!(info.decimals, 6);
}

#[test]
fn profit_is_token_2022_no_transfer_fee() {
    let info = token_info_for_mint(&profit_mint()).unwrap();
    assert!(info.is_token_2022);
    assert_eq!(info.decimals, 6);
}

#[test]
fn unknown_mint_returns_none() {
    assert!(token_info_for_mint(&unique()).is_none());
}
