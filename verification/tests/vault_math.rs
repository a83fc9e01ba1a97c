use titan_integration_template::drfraudsworth::accounts::addresses::{crime_mint, fraud_mint, native_mint, profit_mint};
use titan_integration_template::drfraudsworth::math::vault_math::compute_vault_output;

#[test]
fn crime_to_profit() {
    assert_eq!(compute_vault_output(&crime_mint(), &profit_mint(), 10_000), Some(100));
}

#[test]
fn profit_to_crime() {
    assert_eq!(compute_vault_output(&profit_mint(), &crime_mint(), 100), Some(10_000));
}

#[test]
fn crime_to_fraud_not_supported() {
    assert_eq!(compute_vault_output(&crime_mint(), &fraud_mint(), 1000), None);
}

#[test]
fn zero_amount() {
    assert_eq!(compute_vault_output(&crime_mint(), &profit_mint(), 0), None);
}

#[test]
fn dust_too_small() {
    assert_eq!(compute_vault_output(&crime_mint(), &profit_mint(), 99), None);
}

#[test]
fn fraud_to_profit_rounds_down() {
    assert_eq!(compute_vault_output(&fraud_mint(), &profit_mint(), 12_345), Some(123));
}

#[test]
fn profit_to_fraud_overflow_is_refused() {
    assert_eq!(compute_vault_output(&profit_mint(), &fraud_mint(), u64::MAX), None);
}

#[test]
fn sol_is_not_a_vault_mint() {
    assert_eq!(compute_vault_output(&native_mint(), &profit_mint(), 10_000), None);
}

#[test]
fn vault_conversion_round_trips_whole_units() {
    let profit = compute_vault_output(&crime_mint(), &profit_mint(), 250_000).unwrap();
    assert_eq!(compute_vault_output(&profit_mint(), &crime_mint(), profit), Some(250_000));
}
