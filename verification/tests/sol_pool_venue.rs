use titan_integration_template::drfraudsworth::accounts::addresses::{crime_mint, crime_sol_pool, fraud_mint, native_mint};
use titan_integration_template::drfraudsworth::sol_pool_venue::SolPoolVenue;
use titan_integration_template::trading_venue::{ErrorInfo, QuoteRequest, SwapType, TradingVenueError};

fn make_venue(is_crime: bool) -> SolPoolVenue {
    SolPoolVenue::new_for_testing(is_crime, 100_000_000_000, 100_000_000_000, 400, 1400)
}

#[test]
fn buy_quote_applies_tax_then_swap() {
    let venue = make_venue(true);
    let result = venue
        .quote(QuoteRequest { input_mint: native_mint(), output_mint: crime_mint(), amount: 1_000_000_000, swap_type: SwapType::ExactIn })
        .unwrap();
    assert!(result.expected_output > 0);
    assert!(!result.not_enough_liquidity);
}

#[test]
fn sell_quote_applies_tax_after_swap() {
    let venue = make_venue(true);
    let result = venue
        .quote(QuoteRequest { input_mint: crime_mint(), output_mint: native_mint(), amount: 1_000_000_000, swap_type: SwapType::ExactIn })
        .unwrap();
    assert!(result.expected_output > 0);
}

#[test]
fn zero_amount_returns_zero_output() {
    let venue = make_venue(true);
    let result = venue
        .quote(QuoteRequest { input_mint: native_mint(), output_mint: crime_mint(), amount: 0, swap_type: SwapType::ExactIn })
        .unwrap();
    assert_eq!(result.expected_output, 0);
}

#[test]
fn sol_pool_venue_exact_out_returns_error() {
    let venue = make_venue(true);
    let result = venue.quote(QuoteRequest {
        input_mint: native_mint(),
        output_mint: crime_mint(),
        amount: 1_000_000_000,
        swap_type: SwapType::ExactOut,
    });
    assert!(result.is_err());
}

#[test]
fn tradable_mints_correct() {
    let crime_venue = make_venue(true);
    let mints = crime_venue.tradable_mints().unwrap();
    assert_eq!(mints, vec![native_mint(), crime_mint()]);

    let fraud_venue = make_venue(false);
    let mints = fraud_venue.tradable_mints().unwrap();
    assert_eq!(mints, vec![native_mint(), fraud_mint()]);
}

#[test]
fn token_info_has_two_entries() {
    let venue = make_venue(true);
    assert_eq!(venue.get_token_info().len(), 2);
    assert_eq!(venue.get_token_info()[0].pubkey, native_mint());
    assert_eq!(venue.get_token_info()[1].pubkey, crime_mint());
}

#[test]
fn label_includes_pool_name() {
    assert_eq!(make_venue(true).label(), "Dr Fraudsworth CRIME/SOL");
    assert_eq!(make_venue(false).label(), "Dr Fraudsworth FRAUD/SOL");
}

#[test]
fn market_id_is_pool_address() {
    let venue = make_venue(true);
    assert_eq!(venue.market_id(), crime_sol_pool());
}

#[test]
fn buy_quote_exact_value() {
    // 1 SOL in: 4% tax -> 960_000_000; 1% LP fee -> 950_400_000;
    // out = 100e9 * 950_400_000 / (100e9 + 950_400_000) = 941_452_436.
    let venue = make_venue(true);
    let q = venue
        .quote(QuoteRequest { input_mint: native_mint(), output_mint: crime_mint(), amount: 1_000_000_000, swap_type: SwapType::ExactIn })
        .unwrap();
    assert_eq!(q.expected_output, 941_452_436);
    assert_eq!(q.price, None);
}

#[test]
fn exact_out_error_variant() {
    let venue = make_venue(false);
    let r = venue.quote(QuoteRequest { input_mint: fraud_mint(), output_mint: native_mint(), amount: 5, swap_type: SwapType::ExactOut });
    assert_eq!(r, Err(TradingVenueError::ExactOutNotSupported));
}

#[test]
fn liquidity_flag_above_95_percent_of_reserve() {
    let venue = SolPoolVenue::new_for_testing(true, 1_000_000_000, 1_000_000_000, 0, 0);
    let q = venue
        .quote(QuoteRequest { input_mint: native_mint(), output_mint: crime_mint(), amount: 100_000_000_000, swap_type: SwapType::ExactIn })
        .unwrap();
    assert!(q.not_enough_liquidity);
}

#[test]
fn decimals_and_get_token() {
    let venue = make_venue(true);
    assert_eq!(venue.decimals().unwrap(), vec![9, 6]);
    assert_eq!(venue.get_token(1).unwrap().pubkey, crime_mint());
    assert_eq!(venue.get_token(2).err(), Some(TradingVenueError::TokenInfoIndexError(2)));
}

#[test]
fn quotes_stay_within_reserves() {
    let venue = SolPoolVenue::new_for_testing(false, 10_000, 20_000, 0, 0);
    for amount in [1u64, 100, 10_000, 1_000_000, u64::MAX / 1_000_000] {
        let buy = venue.quote(QuoteRequest { input_mint: native_mint(), output_mint: fraud_mint(), amount, swap_type: SwapType::ExactIn }).unwrap();
        assert!(buy.expected_output <= 20_000);
        let sell = venue.quote(QuoteRequest { input_mint: fraud_mint(), output_mint: native_mint(), amount, swap_type: SwapType::ExactIn }).unwrap();
        assert!(sell.expected_output <= 10_000);
    }
}

#[test]
fn failing_steps_report_their_own_errors() {
    let over_taxed = SolPoolVenue::new_for_testing(true, 1_000, 1_000, 10_001, 10_001);
    assert_eq!(
        over_taxed.quote(QuoteRequest { input_mint: native_mint(), output_mint: crime_mint(), amount: 10, swap_type: SwapType::ExactIn }),
        Err(TradingVenueError::CheckedMathError(ErrorInfo::StaticStr("Tax calculation overflow in buy")))
    );
    assert_eq!(
        over_taxed.quote(QuoteRequest { input_mint: crime_mint(), output_mint: native_mint(), amount: 10, swap_type: SwapType::ExactIn }),
        Err(TradingVenueError::CheckedMathError(ErrorInfo::StaticStr("Tax calculation overflow in sell")))
    );
    let empty = SolPoolVenue::new_for_testing(true, 0, 0, 0, 0);
    assert_eq!(
        empty.quote(QuoteRequest { input_mint: crime_mint(), output_mint: native_mint(), amount: 1, swap_type: SwapType::ExactIn }),
        Err(TradingVenueError::CheckedMathError(ErrorInfo::StaticStr("Swap output calculation overflow")))
    );
}
