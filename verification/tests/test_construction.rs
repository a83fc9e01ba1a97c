use titan_integration_template::drfraudsworth::accounts::addresses::{
    amm_program_id, conversion_vault_program_id, crime_mint, crime_sol_pool, epoch_program_id, native_mint, profit_mint,
};
use titan_integration_template::drfraudsworth::constants::EPOCH_STATE_DISCRIMINATOR;
use titan_integration_template::drfraudsworth::sol_pool_venue::SolPoolVenue;
use titan_integration_template::drfraudsworth::vault_venue::{known_sol_pool_venues, known_vault_venues, VaultVenue};
use titan_integration_template::trading_venue::{Account, Pubkey, QuoteRequest, SwapType, TradingVenueError};

fn account(data: Vec<u8>, owner: Pubkey) -> Account {
    Account { lamports: 1_000_000, data, owner, executable: false, rent_epoch: 0 }
}

fn mock_pool_bytes(mint_a: &Pubkey, ra: u64, rb: u64, fee: u16) -> Vec<u8> {
    let mut d = vec![0u8; 224];
    d[9..41].copy_from_slice(&mint_a.0);
    d[137..145].copy_from_slice(&ra.to_le_bytes());
    d[145..153].copy_from_slice(&rb.to_le_bytes());
    d[153..155].copy_from_slice(&fee.to_le_bytes());
    d
}

fn mock_epoch_bytes(cb: u16, cs: u16, fb: u16, fs: u16) -> Vec<u8> {
    let mut d = vec![0u8; 172];
    d[0..8].copy_from_slice(&EPOCH_STATE_DISCRIMINATOR);
    d[33..35].copy_from_slice(&cb.to_le_bytes());
    d[35..37].copy_from_slice(&cs.to_le_bytes());
    d[37..39].copy_from_slice(&fb.to_le_bytes());
    d[39..41].copy_from_slice(&fs.to_le_bytes());
    d
}

#[test]
fn from_account_parses_pool() {
    let acct = account(mock_pool_bytes(&native_mint(), 100_000_000_000, 500_000_000_000, 100), amm_program_id());
    let venue = SolPoolVenue::from_account(&crime_sol_pool(), &acct).unwrap();
    assert_eq!(venue.market_id(), crime_sol_pool());
}

#[test]
fn update_state_loads_reserves() {
    let mut venue = SolPoolVenue::new_uninitialized(true, crime_sol_pool(), crime_mint());
    let pool = account(mock_pool_bytes(&native_mint(), 100_000_000_000, 500_000_000_000, 100), amm_program_id());
    let epoch = account(mock_epoch_bytes(400, 1400, 1400, 400), epoch_program_id());
    venue.update_state(&[Some(pool), Some(epoch)]).unwrap();
    assert!(venue.initialized());
    let r = venue
        .quote(QuoteRequest { input_mint: native_mint(), output_mint: crime_mint(), amount: 1_000_000_000, swap_type: SwapType::ExactIn })
        .unwrap();
    assert!(r.expected_output > 0);
}

#[test]
fn vault_update_state() {
    let mut v = known_vault_venues()[0].clone();
    let config = account(vec![0u8; 64], conversion_vault_program_id());
    v.update_state(Some(&config)).unwrap();
    assert!(v.initialized());
}

#[test]
fn no_transfer_fees() {
    for v in known_sol_pool_venues() {
        for t in v.get_token_info() {
            assert!(t.transfer_fee.is_none());
        }
    }
    for v in known_vault_venues() {
        for t in v.get_token_info() {
            assert!(t.transfer_fee.is_none());
        }
    }
}

#[test]
fn zero_input_no_panic() {
    let v = SolPoolVenue::new_for_testing(true, 100_000_000_000, 1_000_000_000_000, 400, 1400);
    assert_eq!(
        v.quote(QuoteRequest { input_mint: native_mint(), output_mint: crime_mint(), amount: 0, swap_type: SwapType::ExactIn })
            .unwrap()
            .expected_output,
        0
    );
    let vv = VaultVenue::new_for_testing(crime_mint(), profit_mint());
    assert_eq!(
        vv.quote(QuoteRequest { input_mint: crime_mint(), output_mint: profit_mint(), amount: 0, swap_type: SwapType::ExactIn })
            .unwrap()
            .expected_output,
        0
    );
}

#[test]
fn exact_out_rejected() {
    let v = SolPoolVenue::new_for_testing(true, 100_000_000_000, 1_000_000_000_000, 400, 1400);
    assert!(matches!(
        v.quote(QuoteRequest { input_mint: native_mint(), output_mint: crime_mint(), amount: 1_000_000_000, swap_type: SwapType::ExactOut }),
        Err(TradingVenueError::ExactOutNotSupported)
    ));
}

#[test]
fn speed_under_100us() {
    let v = SolPoolVenue::new_for_testing(true, 100_000_000_000, 1_000_000_000_000, 400, 1400);
    let start = std::time::Instant::now();
    for i in 0..10_000u64 {
        let _ = v.quote(QuoteRequest { input_mint: native_mint(), output_mint: crime_mint(), amount: 1_000_000 + i, swap_type: SwapType::ExactIn });
    }
    assert!(start.elapsed().as_micros() as f64 / 10_000.0 < 100.0);
}

#[test]
fn update_state_missing_epoch_keeps_venue() {
    let mut venue = SolPoolVenue::new_uninitialized(true, crime_sol_pool(), crime_mint());
    let pool = account(mock_pool_bytes(&native_mint(), 1, 2, 100), amm_program_id());
    let r = venue.update_state(&[Some(pool), None]);
    assert!(matches!(r, Err(TradingVenueError::NoAccountFound(_))));
    assert!(!venue.initialized());
}

#[test]
fn update_state_bad_epoch_is_deserialization_error() {
    let mut venue = SolPoolVenue::new_uninitialized(true, crime_sol_pool(), crime_mint());
    let pool = account(mock_pool_bytes(&native_mint(), 1, 2, 100), amm_program_id());
    let epoch = account(vec![0u8; 172], epoch_program_id());
    let r = venue.update_state(&[Some(pool), Some(epoch)]);
    assert!(matches!(r, Err(TradingVenueError::DeserializationFailed(_))));
    assert!(!venue.initialized());
}

#[test]
fn from_account_rejects_short_pool() {
    let acct = account(vec![0u8; 100], amm_program_id());
    assert!(matches!(SolPoolVenue::from_account(&crime_sol_pool(), &acct), Err(TradingVenueError::DeserializationFailed(_))));
}
