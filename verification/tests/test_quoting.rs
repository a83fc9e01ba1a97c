use titan_integration_template::drfraudsworth::accounts::addresses::{
    conversion_vault_program_id, crime_mint, fraud_mint, native_mint, profit_mint, tax_program_id,
};
use titan_integration_template::drfraudsworth::constants::LP_FEE_BPS;
use titan_integration_template::drfraudsworth::math::amm_math::{calculate_effective_input, calculate_swap_output};
use titan_integration_template::drfraudsworth::math::tax_math::calculate_tax;
use titan_integration_template::drfraudsworth::math::vault_math::compute_vault_output;
use titan_integration_template::drfraudsworth::sol_pool_venue::SolPoolVenue;
use titan_integration_template::drfraudsworth::vault_venue::VaultVenue;
use titan_integration_template::trading_venue::{Pubkey, QuoteRequest, SwapType};

fn ref_buy(rsol: u64, rtok: u64, amt: u64, tax: u16, fee: u16) -> u64 {
    if amt == 0 {
        return 0;
    }
    let t = calculate_tax(amt, tax).unwrap();
    let s = amt.checked_sub(t).unwrap();
    if s == 0 {
        return 0;
    }
    let e = calculate_effective_input(s, fee).unwrap();
    calculate_swap_output(rsol, rtok, e).unwrap_or(0)
}

fn ref_sell(rsol: u64, rtok: u64, amt: u64, tax: u16, fee: u16) -> u64 {
    if amt == 0 {
        return 0;
    }
    let e = calculate_effective_input(amt, fee).unwrap();
    let g = calculate_swap_output(rtok, rsol, e).unwrap_or(0);
    g.saturating_sub(calculate_tax(g, tax).unwrap())
}

const RS: u64 = 100_000_000_000;
const RT: u64 = 1_000_000_000_000;
const BT: u16 = 400;
const ST: u16 = 1400;

fn crime() -> SolPoolVenue {
    SolPoolVenue::new_for_testing(true, RS, RT, BT, ST)
}

fn unique() -> Pubkey {
    Pubkey(solana_pubkey::Pubkey::new_unique().to_bytes())
}

#[test]
fn parity_buy_1sol() {
    let v = crime();
    let a = 1_000_000_000;
    let r = v.quote(QuoteRequest { input_mint: native_mint(), output_mint: crime_mint(), amount: a, swap_type: SwapType::ExactIn }).unwrap();
    assert_eq!(r.expected_output, ref_buy(RS, RT, a, BT, LP_FEE_BPS));
}

#[test]
fn parity_sell_1m() {
    let v = crime();
    let a = 1_000_000;
    let r = v.quote(QuoteRequest { input_mint: crime_mint(), output_mint: native_mint(), amount: a, swap_type: SwapType::ExactIn }).unwrap();
    assert_eq!(r.expected_output, ref_sell(RS, RT, a, ST, LP_FEE_BPS));
}

#[test]
fn parity_vault_all_directions() {
    for (i, o, a) in [
        (crime_mint(), profit_mint(), 10_000u64),
        (fraud_mint(), profit_mint(), 10_000),
        (profit_mint(), crime_mint(), 100),
        (profit_mint(), fraud_mint(), 100),
    ] {
        let v = VaultVenue::new_for_testing(i, o);
        let r = v.quote(QuoteRequest { input_mint: i, output_mint: o, amount: a, swap_type: SwapType::ExactIn }).unwrap();
        assert_eq!(r.expected_output, compute_vault_output(&i, &o, a).unwrap());
    }
}

fn sample(lo: u64, hi: u64, seed: u64) -> u64 {
    let h = seed.wrapping_mul(6364136223846793005).wrapping_add(1442695040888963407);
    let f = (h as f64) / (u64::MAX as f64);
    ((lo as f64).ln() + f * ((hi as f64).ln() - (lo as f64).ln())).exp().max(lo as f64).min(hi as f64) as u64
}

#[test]
fn random_buy_50() {
    let v = crime();
    for s in 0..50 {
        let a = sample(1_000, 50_000_000_000, s);
        let r = v.quote(QuoteRequest { input_mint: native_mint(), output_mint: crime_mint(), amount: a, swap_type: SwapType::ExactIn }).unwrap();
        assert_eq!(r.expected_output, ref_buy(RS, RT, a, BT, LP_FEE_BPS), "sample {} at {}", s, a);
    }
}

#[test]
fn random_sell_50() {
    let v = crime();
    for s in 0..50 {
        let a = sample(1_000, 500_000_000_000, s + 100);
        let r = v.quote(QuoteRequest { input_mint: crime_mint(), output_mint: native_mint(), amount: a, swap_type: SwapType::ExactIn }).unwrap();
        assert_eq!(r.expected_output, ref_sell(RS, RT, a, ST, LP_FEE_BPS), "sample {} at {}", s, a);
    }
}

#[test]
fn monotone_buy_100() {
    let v = crime();
    let mut prev = 0;
    for i in 1..=100 {
        let r = v
            .quote(QuoteRequest { input_mint: native_mint(), output_mint: crime_mint(), amount: i * 500_000_000, swap_type: SwapType::ExactIn })
            .unwrap();
        assert!(r.expected_output >= prev);
        prev = r.expected_output;
    }
}

#[test]
fn monotone_sell_100() {
    let v = crime();
    let mut prev = 0;
    for i in 1..=100 {
        let r = v
            .quote(QuoteRequest { input_mint: crime_mint(), output_mint: native_mint(), amount: i * 5_000_000_000, swap_type: SwapType::ExactIn })
            .unwrap();
        assert!(r.expected_output >= prev);
        prev = r.expected_output;
    }
}

#[test]
fn speed_buy_10k() {
    let v = crime();
    let s = std::time::Instant::now();
    for i in 0..10_000u64 {
        let _ = v.quote(QuoteRequest { input_mint: native_mint(), output_mint: crime_mint(), amount: 1_000_000 + i, swap_type: SwapType::ExactIn });
    }
    let avg = s.elapsed().as_micros() as f64 / 10_000.0;
    assert!(avg < 100.0, "avg {:.2}us > 100us", avg);
}

#[test]
fn speed_sell_10k() {
    let v = crime();
    let s = std::time::Instant::now();
    for i in 0..10_000u64 {
        let _ = v.quote(QuoteRequest { input_mint: crime_mint(), output_mint: native_mint(), amount: 1_000_000 + i, swap_type: SwapType::ExactIn });
    }
    assert!(s.elapsed().as_micros() as f64 / 10_000.0 < 100.0);
}

#[test]
fn speed_vault_10k() {
    let v = VaultVenue::new_for_testing(crime_mint(), profit_mint());
    let s = std::time::Instant::now();
    for i in 0..10_000u64 {
        let _ = v.quote(QuoteRequest { input_mint: crime_mint(), output_mint: profit_mint(), amount: 10_000 + i, swap_type: SwapType::ExactIn });
    }
    assert!(s.elapsed().as_micros() as f64 / 10_000.0 < 100.0);
}

#[test]
fn buy_ix_structure() {
    let v = crime();
    let ix = v
        .generate_swap_instruction(QuoteRequest { input_mint: native_mint(), output_mint: crime_mint(), amount: 1_000_000_000, swap_type: SwapType::ExactIn }, unique())
        .unwrap();
    assert_eq!(ix.program_id, tax_program_id());
    assert_eq!(ix.accounts.len(), 24);
    assert_eq!(ix.data.len(), 25);
    assert!(ix.accounts[0].is_signer);
}

#[test]
fn sell_ix_structure() {
    let v = crime();
    let ix = v
        .generate_swap_instruction(QuoteRequest { input_mint: crime_mint(), output_mint: native_mint(), amount: 1_000_000_000, swap_type: SwapType::ExactIn }, unique())
        .unwrap();
    assert_eq!(ix.program_id, tax_program_id());
    assert_eq!(ix.accounts.len(), 25);
    assert_eq!(ix.data.len(), 25);
}

#[test]
fn vault_ix_structure() {
    let v = VaultVenue::new_for_testing(crime_mint(), profit_mint());
    let ix = v
        .generate_swap_instruction(QuoteRequest { input_mint: crime_mint(), output_mint: profit_mint(), amount: 10_000, swap_type: SwapType::ExactIn }, unique())
        .unwrap();
    assert_eq!(ix.program_id, conversion_vault_program_id());
    assert_eq!(ix.accounts.len(), 17);
    assert_eq!(ix.data.len(), 16);
}

#[test]
fn buy_ix_asks_for_half_the_quote() {
    let v = crime();
    let request = QuoteRequest { input_mint: native_mint(), output_mint: crime_mint(), amount: 1_000_000_000, swap_type: SwapType::ExactIn };
    let quoted = v.quote(request).unwrap().expected_output;
    let ix = v.generate_swap_instruction(request, unique()).unwrap();
    assert_eq!(u64::from_le_bytes(ix.data[8..16].try_into().unwrap()), 1_000_000_000);
    assert_eq!(u64::from_le_bytes(ix.data[16..24].try_into().unwrap()), quoted / 2);
    assert_eq!(ix.data[24], 1);
}

#[test]
fn user_token_accounts_are_associated_accounts() {
    let v = crime();
    let user = unique();
    let ix = v
        .generate_swap_instruction(QuoteRequest { input_mint: native_mint(), output_mint: crime_mint(), amount: 5, swap_type: SwapType::ExactIn }, user)
        .unwrap();
    let ata_program = solana_pubkey::Pubkey::new_from_array(titan_integration_template::programs::associated_token_program().0);
    let spl = titan_integration_template::programs::spl_token_program().0;
    let t22 = titan_integration_template::programs::token_2022_program().0;
    let (wsol, _) = solana_pubkey::Pubkey::find_program_address(&[&user.0, &spl, &native_mint().0], &ata_program);
    let (tok, _) = solana_pubkey::Pubkey::find_program_address(&[&user.0, &t22, &crime_mint().0], &ata_program);
    assert_eq!(ix.accounts[9].pubkey.0, wsol.to_bytes());
    assert_eq!(ix.accounts[10].pubkey.0, tok.to_bytes());
}
