use spl_token_2022_interface::extension::transfer_fee::{TransferFee, TransferFeeConfig};
use spl_token_2022_interface::extension::{BaseStateWithExtensionsMut, ExtensionType, StateWithExtensionsMut};
use spl_token_2022_interface::state::Mint;
use titan_integration_template::programs::{
    instructions_sysvar, spl_token_program, system_program, sysvar_clock, token_2022_program,
};
use titan_integration_template::quay::venue::{marginal_price, price_step, spot_probe};
use titan_integration_template::quay::{
    decode_clock, global_config_address, market_maker_address, parse_pool_creations, quay_program_id, vault_address,
    QuayVenue, CLOCK_MIN_LEN, INIT_STRATEGY_DISCRIMINATOR, RECOMMENDED_LOADED_ACCOUNTS_DATA_SIZE_LIMIT, ROUTE_TITAN,
    SIDE_BUY_BASE, SIDE_SELL_BASE, SWAP_ACCOUNTS_LEN,
};
use titan_integration_template::trading_venue::{
    Account, ErrorInfo, LayoutError, MarginalPrice, ParsedInstruction, PoolProtocol, Pubkey, QuoteRequest, SwapType,
    TradingVenueError,
};

fn unique() -> Pubkey {
    Pubkey(solana_pubkey::Pubkey::new_unique().to_bytes())
}

fn sdk_key(k: &Pubkey) -> solana_pubkey::Pubkey {
    solana_pubkey::Pubkey::new_from_array(k.0)
}

/// A `Clock` sysvar body with the middle fields poisoned, so that an offset
/// drift in the decoder shows.
fn fake_clock(slot: u64, unix_ts: i64) -> Vec<u8> {
    let mut data = vec![0u8; CLOCK_MIN_LEN];
    data[0..8].copy_from_slice(&slot.to_le_bytes());
    data[8..16].copy_from_slice(&0xDEAD_BEEF_DEAD_BEEFu64.to_le_bytes());
    data[16..24].copy_from_slice(&0xFEED_FACE_FEED_FACEu64.to_le_bytes());
    data[24..32].copy_from_slice(&0xBAAD_F00D_BAAD_F00Du64.to_le_bytes());
    data[32..40].copy_from_slice(&unix_ts.to_le_bytes());
    data
}

#[test]
fn decode_clock_reads_slot_and_unix_ts() {
    let data = fake_clock(123_456_789, 1_700_000_000);
    let (slot, ts) = decode_clock(&data).expect("decode should succeed");
    assert_eq!(slot, 123_456_789);
    assert_eq!(ts, 1_700_000_000);
}

#[test]
fn decode_clock_rejects_short_buffers() {
    let data = vec![0u8; CLOCK_MIN_LEN - 1];
    assert!(decode_clock(&data).is_none());
}

#[test]
fn decode_clock_accepts_oversized_buffers() {
    let mut data = fake_clock(7, 11);
    data.extend_from_slice(&[0xAB; 32]);
    let (slot, ts) = decode_clock(&data).expect("decode should succeed");
    assert_eq!(slot, 7);
    assert_eq!(ts, 11);
}

#[test]
fn decode_clock_handles_negative_unix_ts() {
    let data = fake_clock(0, -1);
    let (_, ts) = decode_clock(&data).expect("decode should succeed");
    assert_eq!(ts, -1);
}

// ── A synthetic Quay market ─────────────────────────────────────────────────

/// The accounts of one synthetic strategy.
struct Market {
    program: Pubkey,
    strategy_key: Pubkey,
    owner: Pubkey,
    base: Pubkey,
    quote: Pubkey,
    quotes: Pubkey,
    strategy: Vec<u8>,
    mm: Vec<u8>,
    quotes_data: Vec<u8>,
    cfg: Vec<u8>,
    base_mint_data: Vec<u8>,
    quote_mint_data: Vec<u8>,
    base_mint_owner: Pubkey,
    quote_mint_owner: Pubkey,
    clock: Vec<u8>,
}

fn account(data: Vec<u8>, owner: Pubkey) -> Account {
    Account { lamports: 1, data, owner, executable: false, rent_epoch: 0 }
}

/// `out = 2 * size`.
fn doubling_curve() -> Vec<u8> {
    quay_sdk::dsl::BytecodeBuilder::new().load_size().load_const(2).mul().halt().build()
}

/// `out = size + current_slot`.
fn slot_curve() -> Vec<u8> {
    quay_sdk::dsl::BytecodeBuilder::new().load_size().load_now_slot().add().halt().build()
}

/// `out = size * size / 1000`: convex, so the output grows faster than linearly.
fn square_curve() -> Vec<u8> {
    quay_sdk::dsl::BytecodeBuilder::new().load_size().load_size().mul().load_const(1000).div().halt().build()
}

fn strategy_bytes(m: &Market, routing: u8, bytecode: &[u8]) -> Vec<u8> {
    let mut d = vec![0u8; 256];
    d[0] = 3;
    d[2] = 2;
    d[8..40].copy_from_slice(&m.owner.0);
    d[40..72].copy_from_slice(&m.base.0);
    d[72..104].copy_from_slice(&m.quote.0);
    d[104..136].copy_from_slice(&m.quotes.0);
    d[136..138].copy_from_slice(&0u16.to_le_bytes());
    d[138..140].copy_from_slice(&1u16.to_le_bytes());
    d[144..148].copy_from_slice(&(bytecode.len() as u32).to_le_bytes());
    d[160] = routing;
    d.extend_from_slice(bytecode);
    d
}

fn mm_bytes(owner: &Pubkey, base: &Pubkey, quote: &Pubkey, inventory_base: u64, inventory_quote: u64) -> Vec<u8> {
    let mut d = vec![0u8; 64 + 2 * 48];
    d[0] = 4;
    d[8..40].copy_from_slice(&owner.0);
    d[40..44].copy_from_slice(&2u32.to_le_bytes());
    d[64..96].copy_from_slice(&base.0);
    d[96..104].copy_from_slice(&inventory_base.to_le_bytes());
    d[112..144].copy_from_slice(&quote.0);
    d[144..152].copy_from_slice(&inventory_quote.to_le_bytes());
    d
}

fn quotes_bytes() -> Vec<u8> {
    let mut d = vec![0u8; 64 + 241 * 4];
    d[0] = 2;
    d[40..48].copy_from_slice(&1u64.to_le_bytes());
    d
}

fn cfg_bytes() -> Vec<u8> {
    let mut d = vec![0u8; 128];
    d[0] = 1;
    d
}

fn mint_bytes(decimals: u8) -> Vec<u8> {
    let mut d = vec![0u8; 82];
    d[44] = decimals;
    d[45] = 1;
    d
}

fn fee_mint_bytes(decimals: u8, bps: u16, max: u64) -> Vec<u8> {
    let len = ExtensionType::try_calculate_account_len::<Mint>(&[ExtensionType::TransferFeeConfig]).unwrap();
    let mut data = vec![0u8; len];
    let mut state = StateWithExtensionsMut::<Mint>::unpack_uninitialized(&mut data).unwrap();
    let fee = TransferFee { epoch: 0u64.into(), maximum_fee: max.into(), transfer_fee_basis_points: bps.into() };
    let config = state.init_extension::<TransferFeeConfig>(true).unwrap();
    config.older_transfer_fee = fee;
    config.newer_transfer_fee = fee;
    let mut base = Mint::default();
    base.decimals = decimals;
    base.is_initialized = true;
    state.base = base;
    state.pack_base();
    state.init_account_type().unwrap();
    data
}

fn market(routing: u8, bytecode: &[u8], inventory: u64) -> Market {
    let mut m = Market {
        program: unique(),
        strategy_key: unique(),
        owner: unique(),
        base: unique(),
        quote: unique(),
        quotes: unique(),
        strategy: Vec::new(),
        mm: Vec::new(),
        quotes_data: quotes_bytes(),
        cfg: cfg_bytes(),
        base_mint_data: mint_bytes(6),
        quote_mint_data: mint_bytes(6),
        base_mint_owner: spl_token_program(),
        quote_mint_owner: spl_token_program(),
        clock: fake_clock(1_000, 1_700_000_000),
    };
    m.strategy = strategy_bytes(&m, routing, bytecode);
    m.mm = mm_bytes(&m.owner, &m.base, &m.quote, inventory, inventory);
    m
}

fn accounts(m: &Market) -> Vec<Option<Account>> {
    vec![
        Some(account(m.strategy.clone(), m.program)),
        Some(account(m.mm.clone(), m.program)),
        Some(account(m.quotes_data.clone(), m.program)),
        Some(account(m.cfg.clone(), m.program)),
        Some(account(m.base_mint_data.clone(), m.base_mint_owner)),
        Some(account(m.quote_mint_data.clone(), m.quote_mint_owner)),
        Some(account(vec![0u8; 165], spl_token_program())),
        Some(account(vec![0u8; 165], spl_token_program())),
        Some(account(m.clock.clone(), system_program())),
    ]
}

fn build(m: &Market) -> QuayVenue {
    QuayVenue::from_account(&m.strategy_key, &account(m.strategy.clone(), m.program)).unwrap()
}

fn loaded(m: &Market) -> QuayVenue {
    let mut v = build(m);
    v.update_state(&accounts(m)).unwrap();
    v
}

fn sell(m: &Market, amount: u64) -> QuoteRequest {
    QuoteRequest { input_mint: m.base, output_mint: m.quote, amount, swap_type: SwapType::ExactIn }
}

fn buy(m: &Market, amount: u64) -> QuoteRequest {
    QuoteRequest { input_mint: m.quote, output_mint: m.base, amount, swap_type: SwapType::ExactIn }
}

#[test]
fn initialized_true_when_state_loaded_and_halts_clear() {
    let m = market(ROUTE_TITAN, &doubling_curve(), 1 << 40);
    assert!(loaded(&m).initialized());
}

#[test]
fn initialized_false_when_any_single_halt_set() {
    // (account, byte offset) of each halt or freeze byte the program checks.
    let cases: [(&str, usize, usize); 7] = [
        ("cfg_swap_halted", 3, 2),
        ("cfg_protocol_halted", 3, 3),
        ("strategy_frozen", 0, 5),
        ("strategy_frozen_admin", 0, 4),
        ("mm_frozen", 1, 4),
        ("mm_frozen_admin", 1, 2),
        ("mm_halted_admin", 1, 3),
    ];
    for (name, index, offset) in cases {
        let m = market(ROUTE_TITAN, &doubling_curve(), 1 << 40);
        let mut v = build(&m);
        let mut accts = accounts(&m);
        accts[index].as_mut().unwrap().data[offset] = 1;
        v.update_state(&accts).unwrap();
        assert!(!v.initialized(), "flag {name}=1 should fail initialized()");
    }
}

#[test]
fn initialized_false_when_state_missing() {
    let m = market(ROUTE_TITAN, &doubling_curve(), 1 << 40);
    // Before the first update nothing is loaded.
    assert!(!build(&m).initialized());
    // After a full update, a refresh whose MarketMaker data is empty leaves the
    // halt bytes clear but the MarketMaker state missing.
    let mut v = loaded(&m);
    let mut accts = accounts(&m);
    accts[1].as_mut().unwrap().data.clear();
    assert!(v.update_state(&accts).is_err());
    assert!(!v.initialized(), "empty mm_data should fail initialized()");
}

#[test]
fn initialized_false_when_transfer_fee_present() {
    let mut m = market(ROUTE_TITAN, &doubling_curve(), 1 << 40);
    m.base_mint_data = fee_mint_bytes(6, 25, 0);
    m.base_mint_owner = token_2022_program();
    let v = loaded(&m);
    assert_eq!(v.get_token_info()[0].transfer_fee, Some(25));
    assert!(!v.initialized(), "transfer-fee mint in tokens should fail initialized()");
}

#[test]
fn initialized_false_when_not_titan_routed() {
    let m = market(0, &doubling_curve(), 1 << 40);
    assert!(!loaded(&m).initialized(), "no routing bits set must not route");
    let m = market(0x02, &doubling_curve(), 1 << 40);
    assert!(!loaded(&m).initialized(), "another router's bit alone must not enable Titan");
    let m = market(ROUTE_TITAN | 0x02, &doubling_curve(), 1 << 40);
    assert!(loaded(&m).initialized(), "ROUTE_TITAN set (with others) routes");
}

#[test]
fn required_pubkeys_include_clock_sysvar() {
    let m = market(ROUTE_TITAN, &doubling_curve(), 1 << 40);
    let venue = build(&m);
    let keys = venue.get_required_pubkeys_for_update().unwrap();
    assert_eq!(keys.len(), 9);
    assert_eq!(keys[8], sysvar_clock());
}

#[test]
fn parse_pool_creations_reads_pair_from_init_strategy() {
    let strategy = unique();
    let base = unique();
    let quote = unique();
    let filler = unique();
    let init = ParsedInstruction {
        program_id: quay_program_id(),
        accounts: vec![strategy, filler, filler, filler, filler, base, quote],
        data: vec![INIT_STRATEGY_DISCRIMINATOR, 0, 0, 0, 0, 0, 0],
    };
    let foreign = ParsedInstruction {
        program_id: unique(),
        accounts: vec![strategy, filler, filler, filler, filler, base, quote],
        data: vec![INIT_STRATEGY_DISCRIMINATOR],
    };
    let quay_swap = ParsedInstruction { program_id: quay_program_id(), accounts: vec![strategy], data: vec![0x20] };
    let short = ParsedInstruction {
        program_id: quay_program_id(),
        accounts: vec![strategy, filler],
        data: vec![INIT_STRATEGY_DISCRIMINATOR],
    };
    let pools = parse_pool_creations(&[foreign, init, quay_swap, short]);
    assert_eq!(pools.len(), 1, "only the well-formed Quay init_strategy yields a pool");
    assert_eq!(pools[0].pool, strategy);
    assert_eq!(pools[0].mints, vec![base, quote]);
}

#[test]
fn lookup_table_keys_cover_stable_accounts_no_cache() {
    let m = market(ROUTE_TITAN, &doubling_curve(), 1 << 40);
    let v = build(&m);
    let keys = v.get_lookup_table_keys().unwrap();
    let stable = v.get_required_pubkeys_for_update().unwrap();
    for k in [m.program, stable[3], m.strategy_key, stable[1], m.quotes, stable[6], stable[7], m.base, m.quote] {
        assert!(keys.contains(&k), "ALT keys should include {:?}", k);
    }
    assert!(keys.contains(&spl_token_program()));
    assert!(keys.contains(&token_2022_program()));
    assert_eq!(keys.len(), 13, "10 venue accounts + 3 program deps");
}

// ── Quoting ─────────────────────────────────────────────────────────────────

#[test]
fn quote_linear_curve_output_and_marginal_price() {
    let m = market(ROUTE_TITAN, &doubling_curve(), 1 << 40);
    let v = loaded(&m);
    let q = v.quote(sell(&m, 1_000)).unwrap();
    assert_eq!(q.expected_output, 2_000);
    assert!(!q.not_enough_liquidity);
    // h = 2^20 * 1000 / 2000 = 2^19; the forward step moves the output by 2h.
    assert_eq!(q.price, Some(MarginalPrice { numerator: 1 << 20, denominator: 1 << 19 }));
    let q = v.quote(buy(&m, 7)).unwrap();
    assert_eq!(q.expected_output, 14);
    assert_eq!(q.input_mint, m.quote);
    assert_eq!(q.output_mint, m.base);
}

#[test]
fn quote_uses_backward_step_at_the_inventory_bound() {
    // Inventory 2_000_000: a sale of 600_000 pays 1_200_000, but 600_000 + h
    // overdraws the output side, so the rate comes from the backward step.
    let m = market(ROUTE_TITAN, &doubling_curve(), 2_000_000);
    let v = loaded(&m);
    let q = v.quote(sell(&m, 600_000)).unwrap();
    assert_eq!(q.expected_output, 1_200_000);
    let h = (1u64 << 20) * 600_000 / 1_200_000;
    assert_eq!(q.price, Some(MarginalPrice { numerator: 1_200_000 - 2 * (600_000 - h), denominator: h }));
}

#[test]
fn quote_refused_size_flags_liquidity() {
    let m = market(ROUTE_TITAN, &doubling_curve(), 1_000);
    let v = loaded(&m);
    let q = v.quote(sell(&m, 10_000)).unwrap();
    assert!(q.not_enough_liquidity);
    assert_eq!(q.expected_output, 0);
    assert_eq!(q.price, Some(MarginalPrice { numerator: 0, denominator: 1 }));
}

#[test]
fn zero_input_quotes_spot_price() {
    let m = market(ROUTE_TITAN, &doubling_curve(), 1 << 40);
    let v = loaded(&m);
    let q = v.quote(sell(&m, 0)).unwrap();
    assert_eq!(q.expected_output, 0);
    assert!(!q.not_enough_liquidity);
    // One whole base unit (6 decimals) fills at twice the input.
    assert_eq!(q.price, Some(MarginalPrice { numerator: 2_000_000, denominator: 1_000_000 }));
}

#[test]
fn zero_input_spot_price_shrinks_probe_for_small_inventory() {
    // 1e6 * 2 overdraws an inventory of 100_000; 1e6 / 16 = 62_500 does too;
    // 62_500 / 16 = 3_906 fills.
    let m = market(ROUTE_TITAN, &doubling_curve(), 100_000);
    let v = loaded(&m);
    let q = v.quote(sell(&m, 0)).unwrap();
    assert_eq!(q.price, Some(MarginalPrice { numerator: 7_812, denominator: 3_906 }));
}

#[test]
fn zero_input_spot_price_is_zero_when_nothing_fills() {
    let m = market(ROUTE_TITAN, &doubling_curve(), 1);
    let v = loaded(&m);
    let q = v.quote(sell(&m, 0)).unwrap();
    assert_eq!(q.price, Some(MarginalPrice { numerator: 0, denominator: 1 }));
}

#[test]
fn quote_reads_the_clock() {
    let m = market(ROUTE_TITAN, &slot_curve(), 1 << 40);
    let v = loaded(&m);
    assert_eq!(v.quote(sell(&m, 5)).unwrap().expected_output, 1_005);
    let v = v.with_clock(50, 0);
    assert_eq!(v.quote(sell(&m, 5)).unwrap().expected_output, 55);
    let mut v = v;
    v.set_clock(7, 0);
    assert_eq!(v.quote(sell(&m, 5)).unwrap().expected_output, 12);
}

#[test]
fn convex_curve_marginal_price_exceeds_average() {
    let m = market(ROUTE_TITAN, &square_curve(), 1 << 40);
    let v = loaded(&m);
    let q = v.quote(sell(&m, 1_000_000)).unwrap();
    assert_eq!(q.expected_output, 1_000_000_000);
    let p = q.price.unwrap();
    assert!(p.numerator as u128 * 1_000_000 > 1_000_000_000u128 * p.denominator as u128);
}

#[test]
fn quote_errors() {
    let m = market(ROUTE_TITAN, &doubling_curve(), 1 << 40);
    let v = loaded(&m);
    let mut r = sell(&m, 10);
    r.swap_type = SwapType::ExactOut;
    assert_eq!(v.quote(r), Err(TradingVenueError::ExactOutNotSupported));
    let other = unique();
    let r = QuoteRequest { input_mint: other, output_mint: m.quote, amount: 10, swap_type: SwapType::ExactIn };
    assert_eq!(v.quote(r), Err(TradingVenueError::InvalidMint(ErrorInfo::Pubkey(other))));
    let fresh = build(&m);
    assert_eq!(fresh.quote(sell(&m, 10)), Err(TradingVenueError::NotInitialized(ErrorInfo::Pubkey(m.strategy_key))));
}

// ── Construction and refresh ────────────────────────────────────────────────

#[test]
fn from_account_derives_program_addresses() {
    let m = market(ROUTE_TITAN, &doubling_curve(), 1 << 40);
    let v = build(&m);
    assert_eq!(v.program_id(), m.program);
    assert_eq!(v.market_id(), m.strategy_key);
    let program = sdk_key(&m.program);
    let (mm, _) = quay_sdk::pda::market_maker_pda(&program.to_bytes().into(), &m.owner.0.into());
    let (cfg, _) = quay_sdk::pda::global_config_pda(&program.to_bytes().into());
    let (vault_base, _) = quay_sdk::pda::vault_pda(&program.to_bytes().into(), &mm, &m.base.0.into());
    let (vault_quote, _) = quay_sdk::pda::vault_pda(&program.to_bytes().into(), &mm, &m.quote.0.into());
    let keys = v.get_required_pubkeys_for_update().unwrap();
    assert_eq!(keys[0], m.strategy_key);
    assert_eq!(keys[1].0, mm.to_bytes());
    assert_eq!(keys[2], m.quotes);
    assert_eq!(keys[3].0, cfg.to_bytes());
    assert_eq!(keys[4], m.base);
    assert_eq!(keys[5], m.quote);
    assert_eq!(keys[6].0, vault_base.to_bytes());
    assert_eq!(keys[7].0, vault_quote.to_bytes());
    assert_eq!(market_maker_address(&m.program, &m.owner), Some(keys[1]));
    assert_eq!(global_config_address(&m.program), Some(keys[3]));
    assert_eq!(vault_address(&m.program, &keys[1], &m.base), Some(keys[6]));
}

#[test]
fn from_account_rejects_bad_strategy_data() {
    let m = market(ROUTE_TITAN, &doubling_curve(), 1 << 40);
    let short = account(m.strategy[..255].to_vec(), m.program);
    assert_eq!(
        QuayVenue::from_account(&m.strategy_key, &short).err(),
        Some(TradingVenueError::DeserializationFailed(ErrorInfo::Layout(
            "StrategyHeader",
            LayoutError::TooShort { got: 255, need: 256 }
        )))
    );
    let mut wrong = m.strategy.clone();
    wrong[0] = 4;
    assert_eq!(
        QuayVenue::from_account(&m.strategy_key, &account(wrong, m.program)).err(),
        Some(TradingVenueError::DeserializationFailed(ErrorInfo::Layout("StrategyHeader", LayoutError::BadDiscriminator)))
    );
}

#[test]
fn update_state_errors_name_the_account() {
    let m = market(ROUTE_TITAN, &doubling_curve(), 1 << 40);
    let mut v = build(&m);
    let keys = v.get_required_pubkeys_for_update().unwrap();
    assert_eq!(v.update_state(&accounts(&m)[..8]), Err(TradingVenueError::FailedToFetchMultipleAccountData));
    for i in 0..9 {
        let mut accts = accounts(&m);
        accts[i] = None;
        let mut v = build(&m);
        assert_eq!(v.update_state(&accts), Err(TradingVenueError::NoAccountFound(ErrorInfo::Pubkey(keys[i]))));
    }
    let mut accts = accounts(&m);
    accts[3].as_mut().unwrap().data[0] = 9;
    assert_eq!(
        v.update_state(&accts),
        Err(TradingVenueError::DeserializationFailed(ErrorInfo::Layout("GlobalConfig", LayoutError::BadDiscriminator)))
    );
    let mut accts = accounts(&m);
    accts[4].as_mut().unwrap().data = vec![0u8; 10];
    assert_eq!(v.update_state(&accts), Err(TradingVenueError::DeserializationFailed(ErrorInfo::Pubkey(m.base))));
    let mut accts = accounts(&m);
    accts[8].as_mut().unwrap().data.truncate(39);
    assert_eq!(
        v.update_state(&accts),
        Err(TradingVenueError::DeserializationFailed(ErrorInfo::StaticStr("Clock sysvar too short")))
    );
}

#[test]
fn update_state_loads_mint_metadata() {
    let mut m = market(ROUTE_TITAN, &doubling_curve(), 1 << 40);
    m.quote_mint_data = fee_mint_bytes(9, 30, 5_000);
    m.quote_mint_owner = token_2022_program();
    m.base_mint_data = mint_bytes(8);
    let v = loaded(&m);
    let tokens = v.get_token_info();
    assert_eq!(tokens.len(), 2);
    assert_eq!(tokens[0].pubkey, m.base);
    assert_eq!(tokens[0].decimals, 8);
    assert!(!tokens[0].is_token_2022);
    assert_eq!(tokens[0].transfer_fee, None);
    assert_eq!(tokens[1].pubkey, m.quote);
    assert_eq!(tokens[1].decimals, 9);
    assert!(tokens[1].is_token_2022);
    assert_eq!(tokens[1].transfer_fee, Some(30));
    assert_eq!(tokens[1].maximum_fee, Some(5_000));
    assert_eq!(tokens[1].get_token_program(), token_2022_program());
}

// ── Swap instructions ───────────────────────────────────────────────────────

#[test]
fn swap_instruction_matches_the_sdk_builder() {
    let mut m = market(ROUTE_TITAN, &doubling_curve(), 1 << 40);
    m.quote_mint_owner = token_2022_program();
    let v = loaded(&m);
    let user = unique();
    let ix = v.generate_swap_instruction(buy(&m, 123_456), user).unwrap();
    let keys = v.get_required_pubkeys_for_update().unwrap();
    let ata_program = quay_sdk::pda::SPL_ATA_PROGRAM_ID;
    let (ata_base, _) = solana_pubkey::Pubkey::find_program_address(
        &[&user.0, &spl_token_program().0, &m.base.0],
        &solana_pubkey::Pubkey::new_from_array(ata_program.to_bytes()),
    );
    let (ata_quote, _) = solana_pubkey::Pubkey::find_program_address(
        &[&user.0, &token_2022_program().0, &m.quote.0],
        &solana_pubkey::Pubkey::new_from_array(ata_program.to_bytes()),
    );
    let expected = quay_sdk::ix::swap(
        &m.program.0.into(),
        &m.strategy_key.0.into(),
        &keys[1].0.into(),
        &m.quotes.0.into(),
        &m.base.0.into(),
        &m.quote.0.into(),
        &user.0.into(),
        &ata_base.to_bytes().into(),
        &ata_quote.to_bytes().into(),
        &spl_token_program().0.into(),
        &token_2022_program().0.into(),
        123_456,
        0,
        SIDE_BUY_BASE,
    );
    assert_eq!(ix.program_id, m.program);
    assert_eq!(ix.data, expected.data);
    assert_eq!(ix.accounts.len(), expected.accounts.len());
    assert_eq!(ix.accounts.len(), SWAP_ACCOUNTS_LEN + 1);
    for (a, b) in ix.accounts.iter().zip(expected.accounts.iter()) {
        assert_eq!(a.pubkey.0, b.pubkey.to_bytes());
        assert_eq!(a.is_signer, b.is_signer);
        assert_eq!(a.is_writable, b.is_writable);
    }
    // Side 1 buys base: the quote vault receives, the base vault pays.
    assert_eq!(ix.accounts[4].pubkey, keys[7]);
    assert_eq!(ix.accounts[5].pubkey, keys[6]);
    assert_eq!(ix.accounts[0].pubkey, keys[3]);
    assert_eq!(ix.accounts[11].pubkey, instructions_sysvar());
    assert_eq!(ix.data[0], 0x20);
    assert_eq!(ix.data[17], SIDE_BUY_BASE);
}

#[test]
fn swap_instruction_sell_side_and_single_token_program() {
    let m = market(ROUTE_TITAN, &doubling_curve(), 1 << 40);
    let v = loaded(&m);
    let user = unique();
    let ix = v.generate_swap_instruction(sell(&m, 9), user).unwrap();
    assert_eq!(ix.accounts.len(), SWAP_ACCOUNTS_LEN);
    assert_eq!(ix.data.len(), 18);
    assert_eq!(u64::from_le_bytes(ix.data[1..9].try_into().unwrap()), 9);
    assert_eq!(u64::from_le_bytes(ix.data[9..17].try_into().unwrap()), 0);
    assert_eq!(ix.data[17], SIDE_SELL_BASE);
    assert_eq!(ix.accounts[8].pubkey, user);
    assert!(ix.accounts[8].is_signer);
    assert_eq!(ix.accounts[9].pubkey, m.base);
    let metas = v.swap_account_metas(&user, &ix.accounts[6].pubkey, &ix.accounts[7].pubkey, SIDE_SELL_BASE,
        &spl_token_program(), &spl_token_program());
    assert_eq!(metas, ix.accounts);
}

#[test]
fn swap_instruction_errors() {
    let m = market(ROUTE_TITAN, &doubling_curve(), 1 << 40);
    let fresh = build(&m);
    assert_eq!(
        fresh.generate_swap_instruction(sell(&m, 1), unique()).err(),
        Some(TradingVenueError::MissingState(ErrorInfo::StaticStr("base TokenInfo")))
    );
    let v = loaded(&m);
    let mut r = sell(&m, 1);
    r.swap_type = SwapType::ExactOut;
    assert_eq!(v.generate_swap_instruction(r, unique()).err(), Some(TradingVenueError::ExactOutNotSupported));
    let r = QuoteRequest { input_mint: m.base, output_mint: m.base, amount: 1, swap_type: SwapType::ExactIn };
    assert_eq!(v.generate_swap_instruction(r, unique()).err(), Some(TradingVenueError::InvalidMint(ErrorInfo::Pubkey(m.base))));
}

#[test]
fn program_dependencies_and_protocol() {
    let m = market(ROUTE_TITAN, &doubling_curve(), 1 << 40);
    let v = build(&m);
    assert_eq!(v.program_dependencies(), vec![spl_token_program(), token_2022_program(), system_program()]);
    assert_eq!(v.protocol(), PoolProtocol::Quay);
    assert!(v.get_token_info().is_empty());
}

// ── The pure pieces of the quote ────────────────────────────────────────────

#[test]
fn marginal_price_prefers_forward_then_backward_then_average() {
    assert_eq!(marginal_price(100, 50, 10, Some(60), Some(40)), MarginalPrice { numerator: 10, denominator: 10 });
    assert_eq!(marginal_price(100, 50, 10, Some(50), Some(44)), MarginalPrice { numerator: 6, denominator: 10 });
    assert_eq!(marginal_price(100, 50, 10, None, Some(44)), MarginalPrice { numerator: 6, denominator: 10 });
    assert_eq!(marginal_price(100, 50, 10, None, None), MarginalPrice { numerator: 50, denominator: 100 });
    assert_eq!(marginal_price(100, 50, 10, Some(49), Some(50)), MarginalPrice { numerator: 50, denominator: 100 });
}

#[test]
fn price_step_targets_a_million_output_atoms() {
    assert_eq!(price_step(1_000, 2_000), 1 << 19);
    assert_eq!(price_step(1, 1 << 30), 1);
    assert_eq!(price_step(u64::MAX, 1), u64::MAX);
    assert_eq!(price_step(0, 0), 1);
    assert_eq!(price_step(3, 0), 3 << 20);
}

#[test]
fn spot_probe_is_one_whole_unit() {
    assert_eq!(spot_probe(0), 1);
    assert_eq!(spot_probe(6), 1_000_000);
    assert_eq!(spot_probe(9), 1_000_000_000);
    assert_eq!(spot_probe(19), 10_000_000_000_000_000_000);
    assert_eq!(spot_probe(20), 1_000_000);
    assert_eq!(spot_probe(255), 1_000_000);
}

// ── Constants agree with the SDK and the runtime ────────────────────────────

#[test]
fn constants_match_the_sdk() {
    assert_eq!(ROUTE_TITAN, quay_sdk::consts::ROUTE_TITAN);
    assert_eq!(SIDE_SELL_BASE, quay_sdk::consts::SIDE_SELL_BASE);
    assert_eq!(SIDE_BUY_BASE, quay_sdk::consts::SIDE_BUY_BASE);
    assert_eq!(INIT_STRATEGY_DISCRIMINATOR, quay_sdk::consts::DISC_INIT_STRATEGY);
    assert_eq!(RECOMMENDED_LOADED_ACCOUNTS_DATA_SIZE_LIMIT, quay_sdk::consts::SWAP_LOADED_ACCOUNTS_DATA_SIZE_LIMIT_MIXED_PROGRAM);
    assert_eq!(instructions_sysvar().0, quay_sdk::ix::INSTRUCTIONS_SYSVAR_ID.to_bytes());
    assert_eq!(spl_token_program().0, quay_sdk::pda::SPL_TOKEN_PROGRAM_ID.to_bytes());
    assert_eq!(token_2022_program().0, quay_sdk::pda::TOKEN_2022_PROGRAM_ID.to_bytes());
    assert_eq!(sysvar_clock().0, solana_sdk_ids::sysvar::clock::ID.to_bytes());
    assert_eq!(system_program().0, solana_sdk_ids::system_program::ID.to_bytes());
    let id: solana_pubkey::Pubkey = "QUayE6nexQWYNZAEqfN8FxoNwQDSu3CAzT2qq9J1ArG".parse().unwrap();
    assert_eq!(quay_program_id().0, id.to_bytes());
}

#[test]
fn update_keeps_the_venue_addresses() {
    let m = market(ROUTE_TITAN, &doubling_curve(), 1 << 40);
    let mut v = build(&m);
    let before = v.get_required_pubkeys_for_update().unwrap();
    let lookup_before = v.get_lookup_table_keys().unwrap();
    v.update_state(&accounts(&m)).unwrap();
    let mut accts = accounts(&m);
    accts[2] = None;
    assert!(v.update_state(&accts).is_err());
    assert_eq!(v.get_required_pubkeys_for_update().unwrap(), before);
    assert_eq!(v.get_lookup_table_keys().unwrap(), lookup_before);
    assert_eq!(v.market_id(), m.strategy_key);
}
