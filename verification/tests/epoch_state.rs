use titan_integration_template::drfraudsworth::constants::EPOCH_STATE_DISCRIMINATOR;
use titan_integration_template::drfraudsworth::state::epoch_state::{
    compute_epoch_state_discriminator, ParsedEpochState, EPOCH_STATE_MIN_LEN,
};
use titan_integration_template::trading_venue::LayoutError;

fn mock_epoch_state(crime_buy: u16, crime_sell: u16, fraud_buy: u16, fraud_sell: u16) -> Vec<u8> {
    let mut data = vec![0u8; EPOCH_STATE_MIN_LEN];
    data[0..8].copy_from_slice(&EPOCH_STATE_DISCRIMINATOR);
    data[33..35].copy_from_slice(&crime_buy.to_le_bytes());
    data[35..37].copy_from_slice(&crime_sell.to_le_bytes());
    data[37..39].copy_from_slice(&fraud_buy.to_le_bytes());
    data[39..41].copy_from_slice(&fraud_sell.to_le_bytes());
    data
}

#[test]
fn discriminator_matches_computed() {
    assert_eq!(compute_epoch_state_discriminator(), EPOCH_STATE_DISCRIMINATOR);
}

#[test]
fn parse_known_tax_rates() {
    let data = mock_epoch_state(400, 1400, 1400, 400);
    let parsed = ParsedEpochState::from_bytes(&data).unwrap();
    assert_eq!(parsed.crime_buy_tax_bps, 400);
    assert_eq!(parsed.crime_sell_tax_bps, 1400);
    assert_eq!(parsed.fraud_buy_tax_bps, 1400);
    assert_eq!(parsed.fraud_sell_tax_bps, 400);
}

#[test]
fn get_tax_bps_all_directions() {
    let data = mock_epoch_state(300, 1200, 1500, 500);
    let parsed = ParsedEpochState::from_bytes(&data).unwrap();
    assert_eq!(parsed.get_tax_bps(true, true), 300);
    assert_eq!(parsed.get_tax_bps(true, false), 1200);
    assert_eq!(parsed.get_tax_bps(false, true), 1500);
    assert_eq!(parsed.get_tax_bps(false, false), 500);
}

#[test]
fn reject_bad_discriminator() {
    let mut data = vec![0u8; EPOCH_STATE_MIN_LEN];
    data[0..8].copy_from_slice(&[0xFF; 8]);
    assert!(ParsedEpochState::from_bytes(&data).is_err());
}

#[test]
fn epoch_state_too_short_reports_lengths() {
    let data = mock_epoch_state(1, 2, 3, 4);
    let short = &data[..EPOCH_STATE_MIN_LEN - 1];
    assert_eq!(
        ParsedEpochState::from_bytes(short),
        Err(LayoutError::TooShort { got: EPOCH_STATE_MIN_LEN - 1, need: EPOCH_STATE_MIN_LEN })
    );
}

#[test]
fn epoch_state_bad_discriminator_reported() {
    let mut data = mock_epoch_state(1, 2, 3, 4);
    data[7] ^= 1;
    assert_eq!(ParsedEpochState::from_bytes(&data), Err(LayoutError::BadDiscriminator));
}

#[test]
fn epoch_state_ignores_trailing_bytes() {
    let mut data = mock_epoch_state(11, 22, 33, 44);
    data.extend_from_slice(&[0xAB; 40]);
    let parsed = ParsedEpochState::from_bytes(&data).unwrap();
    assert_eq!(parsed.get_tax_bps(false, false), 44);
}
