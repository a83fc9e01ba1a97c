use titan_integration_template::drfraudsworth::accounts::addresses::native_mint;
use titan_integration_template::drfraudsworth::state::pool_state::ParsedPoolState;
use titan_integration_template::trading_venue::{LayoutError, Pubkey};

fn unique() -> Pubkey {
    Pubkey(solana_pubkey::Pubkey::new_unique().to_bytes())
}

fn mock_pool_state(mint_a: &Pubkey, reserve_a: u64, reserve_b: u64, lp_fee_bps: u16) -> Vec<u8> {
    let mut data = vec![0u8; 224];
    data[8] = 0;
    data[9..41].copy_from_slice(&mint_a.0);
    data[137..145].copy_from_slice(&reserve_a.to_le_bytes());
    data[145..153].copy_from_slice(&reserve_b.to_le_bytes());
    data[153..155].copy_from_slice(&lp_fee_bps.to_le_bytes());
    data
}

#[test]
fn parse_normal_order_sol_pool() {
    let data = mock_pool_state(&native_mint(), 100_000_000, 500_000_000, 100);
    let parsed = ParsedPoolState::from_bytes(&data).unwrap();
    assert_eq!(parsed.mint_a, native_mint());
    let (sol, token) = parsed.sol_and_token_reserves();
    assert_eq!(sol, 100_000_000);
    assert_eq!(token, 500_000_000);
}

#[test]
fn parse_reversed_order_pool() {
    let some_mint = unique();
    let data = mock_pool_state(&some_mint, 500_000_000, 100_000_000, 100);
    let parsed = ParsedPoolState::from_bytes(&data).unwrap();
    let (sol, token) = parsed.sol_and_token_reserves();
    assert_eq!(sol, 100_000_000);
    assert_eq!(token, 500_000_000);
}

#[test]
fn reject_too_short() {
    assert!(ParsedPoolState::from_bytes(&[0u8; 100]).is_err());
}

#[test]
fn pool_state_reads_fee_and_reports_short_length() {
    let data = mock_pool_state(&native_mint(), 1, 2, 30);
    assert_eq!(ParsedPoolState::from_bytes(&data).unwrap().lp_fee_bps, 30);
    assert_eq!(
        ParsedPoolState::from_bytes(&data[..154]),
        Err(LayoutError::TooShort { got: 154, need: 155 })
    );
    assert!(ParsedPoolState::from_bytes(&data[..155]).is_ok());
}
