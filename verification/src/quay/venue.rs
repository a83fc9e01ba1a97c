//! `QuayVenue`: the state of one Quay Strategy and its venue operations.

use vstd::prelude::*;

use crate::mint::{mint_state, token_info_from_mint, token_program_of};
use crate::pda::{associated_token_address_spec, get_associated_token_address_with_program_id};
use crate::programs::{spl_token_program, system_program, sysvar_clock, token_2022_program, instructions_sysvar};
use crate::quay::sdk::{
    found, global_config_header, global_config_search, header_accepts, market_maker_header, market_maker_search,
    simulate_swap_in, simulated_swap_out, strategy_header, swap_instruction,
    swap_ix_accounts, swap_ix_data, vault_search, GLOBAL_CONFIG_DISCRIMINATOR, GLOBAL_CONFIG_SIZE,
    MARKET_MAKER_DISCRIMINATOR, MARKET_MAKER_HEADER_SIZE, STRATEGY_DISCRIMINATOR, STRATEGY_HEADER_SIZE,
};
use crate::quay::{
    clock_spec, decode_clock, global_config_address, market_maker_address, vault_address, ROUTE_TITAN,
    SIDE_BUY_BASE, SIDE_SELL_BASE,
};
use crate::trading_venue::{
    lemma_pubkey_of, pubkey_of, Account, AccountMeta, ErrorInfo, Instruction, LayoutError, MarginalPrice, PoolProtocol, Pubkey, QuoteRequest,
    QuoteResult, SwapType, TokenInfo, TradingVenueError,
};

verus! {

/// One Quay Strategy as a Titan venue. Built from the Strategy account with
/// `from_account`, then refreshed with `update_state`.
pub struct QuayVenue {
    program_id: Pubkey,
    strategy_key: Pubkey,
    strategy_data: Vec<u8>,
    mm_key: Pubkey,
    mm_data: Vec<u8>,
    quotes_key: Pubkey,
    quotes_data: Vec<u8>,
    global_config_key: Pubkey,
    global_config_data: Vec<u8>,
    base_mint: Pubkey,
    quote_mint: Pubkey,
    vault_base_key: Pubkey,
    vault_quote_key: Pubkey,
    tokens: Vec<TokenInfo>,
    routing_flags: u8,
    cfg_swap_halted: u8,
    cfg_protocol_halted: u8,
    strategy_frozen: u8,
    strategy_frozen_admin: u8,
    mm_frozen: u8,
    mm_frozen_admin: u8,
    mm_halted_admin: u8,
    current_slot: u64,
    current_unix_sec: i64,
}

/// The state of a Quay venue: the cached account keys and data, the mints'
/// metadata, the routing flags, the seven halt and freeze bytes the program
/// checks on a swap, and the clock the simulator runs at.
pub struct QuayModel {
    pub program_id: Pubkey,
    pub strategy_key: Pubkey,
    pub strategy_data: Seq<u8>,
    pub mm_key: Pubkey,
    pub mm_data: Seq<u8>,
    pub quotes_key: Pubkey,
    pub quotes_data: Seq<u8>,
    pub global_config_key: Pubkey,
    pub global_config_data: Seq<u8>,
    pub base_mint: Pubkey,
    pub quote_mint: Pubkey,
    pub vault_base_key: Pubkey,
    pub vault_quote_key: Pubkey,
    pub tokens: Seq<TokenInfo>,
    pub routing_flags: u8,
    pub cfg_swap_halted: u8,
    pub cfg_protocol_halted: u8,
    pub strategy_frozen: u8,
    pub strategy_frozen_admin: u8,
    pub mm_frozen: u8,
    pub mm_frozen_admin: u8,
    pub mm_halted_admin: u8,
    pub current_slot: u64,
    pub current_unix_sec: i64,
}

impl View for QuayVenue {
    type V = QuayModel;

    closed spec fn view(&self) -> QuayModel {
        QuayModel {
            program_id: self.program_id,
            strategy_key: self.strategy_key,
            strategy_data: self.strategy_data@,
            mm_key: self.mm_key,
            mm_data: self.mm_data@,
            quotes_key: self.quotes_key,
            quotes_data: self.quotes_data@,
            global_config_key: self.global_config_key,
            global_config_data: self.global_config_data@,
            base_mint: self.base_mint,
            quote_mint: self.quote_mint,
            vault_base_key: self.vault_base_key,
            vault_quote_key: self.vault_quote_key,
            tokens: self.tokens@,
            routing_flags: self.routing_flags,
            cfg_swap_halted: self.cfg_swap_halted,
            cfg_protocol_halted: self.cfg_protocol_halted,
            strategy_frozen: self.strategy_frozen,
            strategy_frozen_admin: self.strategy_frozen_admin,
            mm_frozen: self.mm_frozen,
            mm_frozen_admin: self.mm_frozen_admin,
            mm_halted_admin: self.mm_halted_admin,
            current_slot: self.current_slot,
            current_unix_sec: self.current_unix_sec,
        }
    }
}

/// The GlobalConfig and vault keys are the addresses the program derives for
/// the venue's program id, MarketMaker and mints.
pub open spec fn addresses_derived(m: QuayModel) -> bool {
    &&& global_config_search(m.program_id) is Some
    &&& m.global_config_key.0@ == found(global_config_search(m.program_id))
    &&& vault_search(m.program_id, m.mm_key, m.base_mint) is Some
    &&& m.vault_base_key.0@ == found(vault_search(m.program_id, m.mm_key, m.base_mint))
    &&& vault_search(m.program_id, m.mm_key, m.quote_mint) is Some
    &&& m.vault_quote_key.0@ == found(vault_search(m.program_id, m.mm_key, m.quote_mint))
}

/// The MarketMaker, Quotes and GlobalConfig data have been loaded.
pub open spec fn has_all_state_spec(m: QuayModel) -> bool {
    m.mm_data.len() > 0 && m.quotes_data.len() > 0 && m.global_config_data.len() > 0
}

/// Every halt and freeze byte the program checks on a swap is clear.
pub open spec fn halts_clear_spec(m: QuayModel) -> bool {
    &&& m.cfg_swap_halted == 0
    &&& m.cfg_protocol_halted == 0
    &&& m.strategy_frozen == 0
    &&& m.strategy_frozen_admin == 0
    &&& m.mm_frozen == 0
    &&& m.mm_frozen_admin == 0
    &&& m.mm_halted_admin == 0
}

/// Some mint carries a transfer fee.
pub open spec fn any_transfer_fee_spec(tokens: Seq<TokenInfo>) -> bool {
    exists|i: int| 0 <= i < tokens.len() && (#[trigger] tokens[i]).transfer_fee is Some
}

/// The market maker opted the strategy into Titan routing.
pub open spec fn titan_routed(routing_flags: u8) -> bool {
    routing_flags & ROUTE_TITAN != 0
}

/// The venue can be routed: opted into Titan, state loaded, no halt or freeze
/// set, and no transfer-fee mint (the program prices the gross input).
pub open spec fn initialized_spec(m: QuayModel) -> bool {
    &&& titan_routed(m.routing_flags)
    &&& has_all_state_spec(m)
    &&& halts_clear_spec(m)
    &&& !any_transfer_fee_spec(m.tokens)
}

/// The first metadata entry for `mint`.
pub open spec fn find_token(tokens: Seq<TokenInfo>, mint: Pubkey) -> Option<TokenInfo>
    decreases tokens.len(),
{
    if tokens.len() == 0 {
        None
    } else if tokens[0].pubkey == mint {
        Some(tokens[0])
    } else {
        find_token(tokens.drop_first(), mint)
    }
}

/// The swap side of a request: 0 sells base for quote, 1 buys base with quote;
/// `None` for any other pair of mints.
pub open spec fn side_of(m: QuayModel, request: QuoteRequest) -> Option<u8> {
    if request.input_mint == m.base_mint && request.output_mint == m.quote_mint {
        Some(SIDE_SELL_BASE)
    } else if request.input_mint == m.quote_mint && request.output_mint == m.base_mint {
        Some(SIDE_BUY_BASE)
    } else {
        None
    }
}

/// The simulated output of swapping `amount` on `side` against the cached
/// accounts and clock, with no minimum output and no known cluster restart.
pub open spec fn sim(m: QuayModel, side: u8, base_decimals: u8, quote_decimals: u8, amount: u64) -> Option<u64> {
    simulated_swap_out(m.strategy_data, m.mm_data, m.quotes_data, m.global_config_data,
        m.current_slot, m.current_unix_sec, side, amount, 0, base_decimals, quote_decimals, 0)
}

/// `10^n`.
pub open spec fn pow10(n: nat) -> nat
    decreases n,
{
    if n == 0 { 1 } else { 10 * pow10((n - 1) as nat) }
}

/// The spot-price probe: one whole unit of the input token (`10^decimals`
/// atoms), or a million atoms where that overflows a u64.
pub open spec fn probe_spec(decimals: u8) -> u64 {
    if pow10(decimals as nat) <= u64::MAX { pow10(decimals as nat) as u64 } else { 1_000_000 }
}

/// The next, smaller probe: a sixteenth, at least one atom.
pub open spec fn next_probe(p: u64) -> u64 {
    if p / 16 >= 1 { (p / 16) as u64 } else { 1 }
}

/// A zero rate.
pub open spec fn zero_price() -> MarginalPrice {
    MarginalPrice { numerator: 0, denominator: 1 }
}

/// The spot rate `f(p) / p` of the first probe, from `p` shrinking by
/// sixteenths, that the simulator fills; zero when even one atom is refused.
pub open spec fn spot_price_search(m: QuayModel, side: u8, bd: u8, qd: u8, p: u64) -> MarginalPrice
    decreases p,
{
    match sim(m, side, bd, qd, p) {
        Some(out) => MarginalPrice { numerator: out, denominator: p },
        None => if p > 1 { spot_price_search(m, side, bd, qd, next_probe(p)) } else { zero_price() },
    }
}

/// The finite-difference step for a quote of `amount` filling `out`: sized so
/// the output moves about `2^20` atoms (`2^20 * amount / out`), capped at
/// `u64::MAX`, at least one atom.
pub open spec fn price_step_spec(amount: u64, out: u64) -> u64 {
    let h = (1_048_576 * amount) / (if out >= 1 { out as int } else { 1 });
    let h = if h <= u64::MAX { h } else { u64::MAX as int };
    if h >= 1 { h as u64 } else { 1 }
}

/// The marginal rate at `amount` (filling `out`) by finite difference over
/// `h` atoms: forward where the output at `amount + h` is larger, else
/// backward where the output at `amount - h` is smaller, else the average
/// rate `out / amount`.
pub open spec fn marginal_price_spec(amount: u64, out: u64, h: u64, up: Option<u64>, down: Option<u64>) -> MarginalPrice {
    if up is Some && up->0 > out {
        MarginalPrice { numerator: (up->0 - out) as u64, denominator: h }
    } else if down is Some && out > down->0 {
        MarginalPrice { numerator: (out - down->0) as u64, denominator: h }
    } else {
        MarginalPrice { numerator: out, denominator: amount }
    }
}

/// The quote a Quay venue gives for a request.
pub open spec fn quote_spec(m: QuayModel, request: QuoteRequest) -> Result<QuoteResult, TradingVenueError> {
    if request.swap_type == SwapType::ExactOut {
        Err(TradingVenueError::ExactOutNotSupported)
    } else if side_of(m, request) is None {
        Err(TradingVenueError::InvalidMint(ErrorInfo::Pubkey(request.input_mint)))
    } else if !initialized_spec(m) {
        Err(TradingVenueError::NotInitialized(ErrorInfo::Pubkey(m.strategy_key)))
    } else if find_token(m.tokens, m.base_mint) is None {
        Err(TradingVenueError::MissingState(ErrorInfo::StaticStr("base TokenInfo")))
    } else if find_token(m.tokens, m.quote_mint) is None {
        Err(TradingVenueError::MissingState(ErrorInfo::StaticStr("quote TokenInfo")))
    } else {
        let side = side_of(m, request)->0;
        let bd = find_token(m.tokens, m.base_mint)->0.decimals as u8;
        let qd = find_token(m.tokens, m.quote_mint)->0.decimals as u8;
        let a = request.amount;
        if a == 0 {
            let in_decimals = if side == SIDE_SELL_BASE { bd } else { qd };
            Ok(QuoteResult {
                input_mint: request.input_mint,
                output_mint: request.output_mint,
                amount: 0,
                expected_output: 0,
                not_enough_liquidity: false,
                price: Some(spot_price_search(m, side, bd, qd, probe_spec(in_decimals))),
            })
        } else {
            match sim(m, side, bd, qd, a) {
                None => Ok(QuoteResult {
                    input_mint: request.input_mint,
                    output_mint: request.output_mint,
                    amount: a,
                    expected_output: 0,
                    not_enough_liquidity: true,
                    price: Some(zero_price()),
                }),
                Some(out) => {
                    let h = price_step_spec(a, out);
                    Ok(QuoteResult {
                        input_mint: request.input_mint,
                        output_mint: request.output_mint,
                        amount: a,
                        expected_output: out,
                        not_enough_liquidity: false,
                        price: Some(marginal_price_spec(a, out, h,
                            sim(m, side, bd, qd, a.saturating_add(h)), sim(m, side, bd, qd, a.saturating_sub(h)))),
                    })
                },
            }
        }
    }
}

/// What a header decoder's refusal reports: the data is too short, or its
/// discriminator is wrong.
pub open spec fn header_error(data: Seq<u8>, size: usize) -> LayoutError {
    if data.len() < size {
        LayoutError::TooShort { got: data.len() as usize, need: size }
    } else {
        LayoutError::BadDiscriminator
    }
}

/// Every address a venue built from Strategy data needs can be derived:
/// the owner's MarketMaker, the GlobalConfig, and the MarketMaker's two vaults.
pub open spec fn strategy_addresses_found(program_id: Pubkey, data: Seq<u8>) -> bool {
    let mm = pubkey_of(found(market_maker_search(program_id, pubkey_of(data.subrange(8, 40)))));
    &&& market_maker_search(program_id, pubkey_of(data.subrange(8, 40))) is Some
    &&& global_config_search(program_id) is Some
    &&& vault_search(program_id, mm, pubkey_of(data.subrange(40, 72))) is Some
    &&& vault_search(program_id, mm, pubkey_of(data.subrange(72, 104))) is Some
}

/// A venue freshly built from Strategy data: mints, Quotes account and owner
/// read from the header, the derived addresses, nothing else loaded, every
/// halt byte set until the first update, and a zero clock.
pub open spec fn model_from_strategy(key: Pubkey, program_id: Pubkey, data: Seq<u8>) -> QuayModel {
    let base = pubkey_of(data.subrange(40, 72));
    let quote = pubkey_of(data.subrange(72, 104));
    let mm = pubkey_of(found(market_maker_search(program_id, pubkey_of(data.subrange(8, 40)))));
    QuayModel {
        program_id,
        strategy_key: key,
        strategy_data: data,
        mm_key: mm,
        mm_data: Seq::empty(),
        quotes_key: pubkey_of(data.subrange(104, 136)),
        quotes_data: Seq::empty(),
        global_config_key: pubkey_of(found(global_config_search(program_id))),
        global_config_data: Seq::empty(),
        base_mint: base,
        quote_mint: quote,
        vault_base_key: pubkey_of(found(vault_search(program_id, mm, base))),
        vault_quote_key: pubkey_of(found(vault_search(program_id, mm, quote))),
        tokens: Seq::empty(),
        routing_flags: data[160],
        cfg_swap_halted: 1,
        cfg_protocol_halted: 1,
        strategy_frozen: 1,
        strategy_frozen_admin: 1,
        mm_frozen: 1,
        mm_frozen_admin: 1,
        mm_halted_admin: 1,
        current_slot: 0,
        current_unix_sec: 0,
    }
}

/// The accounts `update_state` reads, in order.
pub open spec fn required_keys(m: QuayModel) -> Seq<Pubkey> {
    seq![m.strategy_key, m.mm_key, m.quotes_key, m.global_config_key, m.base_mint, m.quote_mint,
        m.vault_base_key, m.vault_quote_key, sysvar_clock()]
}

/// `update_state` from the mints on (accounts 4 to 8).
pub open spec fn update_after_config(m: QuayModel, a: Seq<Option<Account>>) -> (QuayModel, Result<(), TradingVenueError>) {
    if a[4] is None {
        (m, Err(TradingVenueError::NoAccountFound(ErrorInfo::Pubkey(m.base_mint))))
    } else if a[5] is None {
        (m, Err(TradingVenueError::NoAccountFound(ErrorInfo::Pubkey(m.quote_mint))))
    } else if mint_state(a[4]->0.data@, 0) is None {
        (m, Err(TradingVenueError::DeserializationFailed(ErrorInfo::Pubkey(m.base_mint))))
    } else if mint_state(a[5]->0.data@, 0) is None {
        (m, Err(TradingVenueError::DeserializationFailed(ErrorInfo::Pubkey(m.quote_mint))))
    } else {
        let m1 = QuayModel {
            tokens: seq![
                token_info_from_mint(m.base_mint, a[4]->0.owner, mint_state(a[4]->0.data@, 0)->0),
                token_info_from_mint(m.quote_mint, a[5]->0.owner, mint_state(a[5]->0.data@, 0)->0)
            ],
            ..m
        };
        if a[6] is None {
            (m1, Err(TradingVenueError::NoAccountFound(ErrorInfo::Pubkey(m.vault_base_key))))
        } else if a[7] is None {
            (m1, Err(TradingVenueError::NoAccountFound(ErrorInfo::Pubkey(m.vault_quote_key))))
        } else if a[8] is None {
            (m1, Err(TradingVenueError::NoAccountFound(ErrorInfo::Pubkey(sysvar_clock()))))
        } else {
            match clock_spec(a[8]->0.data@) {
                None => (m1, Err(TradingVenueError::DeserializationFailed(ErrorInfo::StaticStr("Clock sysvar too short")))),
                Some(clock) => (QuayModel { current_slot: clock.0, current_unix_sec: clock.1, ..m1 }, Ok(())),
            }
        }
    }
}

/// `update_state` from the Quotes account on (accounts 2 and 3, then the rest).
pub open spec fn update_after_mm(m: QuayModel, a: Seq<Option<Account>>) -> (QuayModel, Result<(), TradingVenueError>) {
    if a[2] is None {
        (m, Err(TradingVenueError::NoAccountFound(ErrorInfo::Pubkey(m.quotes_key))))
    } else {
        let m1 = QuayModel { quotes_data: a[2]->0.data@, ..m };
        if a[3] is None {
            (m1, Err(TradingVenueError::NoAccountFound(ErrorInfo::Pubkey(m.global_config_key))))
        } else {
            let d = a[3]->0.data@;
            let m2 = QuayModel { global_config_data: d, ..m1 };
            if !header_accepts(d, GLOBAL_CONFIG_SIZE, GLOBAL_CONFIG_DISCRIMINATOR) {
                (m2, Err(TradingVenueError::DeserializationFailed(ErrorInfo::Layout("GlobalConfig", header_error(d, GLOBAL_CONFIG_SIZE)))))
            } else {
                update_after_config(QuayModel { cfg_swap_halted: d[2], cfg_protocol_halted: d[3], ..m2 }, a)
            }
        }
    }
}

/// `update_state` from the MarketMaker account on.
pub open spec fn update_after_strategy(m: QuayModel, a: Seq<Option<Account>>) -> (QuayModel, Result<(), TradingVenueError>) {
    if a[1] is None {
        (m, Err(TradingVenueError::NoAccountFound(ErrorInfo::Pubkey(m.mm_key))))
    } else {
        let d = a[1]->0.data@;
        let m1 = QuayModel { mm_data: d, ..m };
        if !header_accepts(d, MARKET_MAKER_HEADER_SIZE, MARKET_MAKER_DISCRIMINATOR) {
            (m1, Err(TradingVenueError::DeserializationFailed(ErrorInfo::Layout("MarketMakerHeader", header_error(d, MARKET_MAKER_HEADER_SIZE)))))
        } else {
            update_after_mm(QuayModel { mm_frozen: d[4], mm_frozen_admin: d[2], mm_halted_admin: d[3], ..m1 }, a)
        }
    }
}

/// The venue state and result after `update_state` with `a`, the accounts of
/// `required_keys` in order. Each account is loaded in turn; the first missing
/// or undecodable one stops the update with an error, keeping what was loaded
/// before it.
pub open spec fn update_spec(m: QuayModel, a: Seq<Option<Account>>) -> (QuayModel, Result<(), TradingVenueError>) {
    if a.len() != 9 {
        (m, Err(TradingVenueError::FailedToFetchMultipleAccountData))
    } else if a[0] is None {
        (m, Err(TradingVenueError::NoAccountFound(ErrorInfo::Pubkey(m.strategy_key))))
    } else {
        let d = a[0]->0.data@;
        let m1 = QuayModel { strategy_data: d, ..m };
        if !header_accepts(d, STRATEGY_HEADER_SIZE, STRATEGY_DISCRIMINATOR) {
            (m1, Err(TradingVenueError::DeserializationFailed(ErrorInfo::Layout("StrategyHeader", header_error(d, STRATEGY_HEADER_SIZE)))))
        } else {
            update_after_strategy(QuayModel { strategy_frozen: d[5], strategy_frozen_admin: d[4], routing_flags: d[160], ..m1 }, a)
        }
    }
}

/// What a swap instruction for `user` needs: the side, the two mints' token
/// programs and the user's token accounts for them; or why it cannot be built.
pub open spec fn swap_plan(m: QuayModel, request: QuoteRequest, user: Pubkey) -> Result<(u8, Pubkey, Pubkey, Pubkey, Pubkey), TradingVenueError> {
    if request.swap_type == SwapType::ExactOut {
        Err(TradingVenueError::ExactOutNotSupported)
    } else if side_of(m, request) is None {
        Err(TradingVenueError::InvalidMint(ErrorInfo::Pubkey(request.input_mint)))
    } else if find_token(m.tokens, m.base_mint) is None {
        Err(TradingVenueError::MissingState(ErrorInfo::StaticStr("base TokenInfo")))
    } else if find_token(m.tokens, m.quote_mint) is None {
        Err(TradingVenueError::MissingState(ErrorInfo::StaticStr("quote TokenInfo")))
    } else {
        let bp = token_program_of(find_token(m.tokens, m.base_mint)->0);
        let qp = token_program_of(find_token(m.tokens, m.quote_mint)->0);
        if associated_token_address_spec(user, m.base_mint, bp) is None
            || associated_token_address_spec(user, m.quote_mint, qp) is None {
            Err(TradingVenueError::AddressDerivationFailed(ErrorInfo::Pubkey(user)))
        } else {
            Ok((side_of(m, request)->0, bp, qp,
                pubkey_of(found(associated_token_address_spec(user, m.base_mint, bp))),
                pubkey_of(found(associated_token_address_spec(user, m.quote_mint, qp)))))
        }
    }
}

/// The accounts of this venue's `swap` instruction for a taker.
pub open spec fn venue_swap_accounts(m: QuayModel, taker: Pubkey, ata_base: Pubkey, ata_quote: Pubkey, side: u8,
    base_program: Pubkey, quote_program: Pubkey) -> Seq<AccountMeta> {
    swap_ix_accounts(m.global_config_key, m.strategy_key, m.mm_key, m.quotes_key, m.vault_base_key, m.vault_quote_key,
        m.base_mint, m.quote_mint, taker, ata_base, ata_quote, base_program, quote_program, side)
}

/// The stable accounts every swap against the venue touches, then the program
/// dependencies.
pub open spec fn lookup_keys(m: QuayModel) -> Seq<Pubkey> {
    seq![m.program_id, m.global_config_key, m.strategy_key, m.mm_key, m.quotes_key, m.vault_base_key,
        m.vault_quote_key, m.base_mint, m.quote_mint, instructions_sysvar(), spl_token_program(),
        token_2022_program(), system_program()]
}

proof fn lemma_pow10_monotone(i: nat, j: nat)
    requires
        i <= j,
    ensures
        pow10(i) <= pow10(j),
    decreases j,
{
    if i < j {
        lemma_pow10_monotone(i, (j - 1) as nat);
    }
}

/// The spot-price probe for an input token with `decimals` decimals.
pub fn spot_probe(decimals: u8) -> (r: u64)
    ensures
        r == probe_spec(decimals),
{
    let mut v: u64 = 1;
    let mut i: u8 = 0;
    while i < decimals
        invariant
            i <= decimals,
            v == pow10(i as nat),
        decreases decimals - i,
    {
        match v.checked_mul(10) {
            Some(n) => {
                v = n;
            },
            None => {
                proof {
                    lemma_pow10_monotone((i + 1) as nat, decimals as nat);
                }
                return 1_000_000;
            },
        }
        i = i + 1;
    }
    v
}

/// The finite-difference step for a quote of `amount` that fills `out`.
pub fn price_step(amount: u64, out: u64) -> (h: u64)
    ensures
        h == price_step_spec(amount, out),
        h >= 1,
{
    let denom: u128 = if out >= 1 { out as u128 } else { 1 };
    assert(1_048_576 * amount <= 1_048_576 * u64::MAX) by (nonlinear_arith)
        requires amount <= u64::MAX;
    let h = (1_048_576u128 * amount as u128) / denom;
    let h: u64 = if h <= u64::MAX as u128 { h as u64 } else { u64::MAX };
    if h >= 1 { h } else { 1 }
}

/// The marginal rate at `amount` (filling `out`) from the simulated outputs
/// `up` at `amount + h` and `down` at `amount - h`.
pub fn marginal_price(amount: u64, out: u64, h: u64, up: Option<u64>, down: Option<u64>) -> (r: MarginalPrice)
    ensures
        r == marginal_price_spec(amount, out, h, up, down),
{
    match up {
        Some(u) => if u > out {
            return MarginalPrice { numerator: u - out, denominator: h };
        },
        None => {},
    }
    match down {
        Some(d) => if out > d {
            return MarginalPrice { numerator: out - d, denominator: h };
        },
        None => {},
    }
    MarginalPrice { numerator: out, denominator: amount }
}

/// The first metadata entry for `mint`.
fn find_token_exec(tokens: &Vec<TokenInfo>, mint: &Pubkey) -> (r: Option<TokenInfo>)
    ensures
        r == find_token(tokens@, *mint),
{
    let mut i: usize = 0;
    assert(tokens@.skip(0) =~= tokens@);
    while i < tokens.len()
        invariant
            0 <= i <= tokens@.len(),
            find_token(tokens@, *mint) == find_token(tokens@.skip(i as int), *mint),
        decreases tokens@.len() - i,
    {
        assert(tokens@.skip(i as int).drop_first() =~= tokens@.skip(i + 1));
        assert(tokens@.skip(i as int)[0] == tokens@[i as int]);
        if tokens[i].pubkey == *mint {
            return Some(tokens[i]);
        }
        i = i + 1;
    }
    assert(tokens@.skip(i as int).len() == 0);
    None
}

fn clone_bytes(v: &Vec<u8>) -> (r: Vec<u8>)
    ensures
        r@ == v@,
{
    let r = v.clone();
    assert(r@ =~= v@);
    r
}

fn clone_tokens(v: &Vec<TokenInfo>) -> (r: Vec<TokenInfo>)
    ensures
        r@ == v@,
{
    let mut r: Vec<TokenInfo> = Vec::new();
    let mut i: usize = 0;
    while i < v.len()
        invariant
            0 <= i <= v@.len(),
            r@ == v@.take(i as int),
        decreases v@.len() - i,
    {
        r.push(v[i]);
        i = i + 1;
        assert(r@ =~= v@.take(i as int));
    }
    assert(v@.take(i as int) =~= v@);
    r
}

impl Clone for QuayVenue {
    fn clone(&self) -> (r: Self)
        ensures
            r@ == self@,
    {
        proof {
            use_type_invariant(self);
        }
        QuayVenue {
            program_id: self.program_id,
            strategy_key: self.strategy_key,
            strategy_data: clone_bytes(&self.strategy_data),
            mm_key: self.mm_key,
            mm_data: clone_bytes(&self.mm_data),
            quotes_key: self.quotes_key,
            quotes_data: clone_bytes(&self.quotes_data),
            global_config_key: self.global_config_key,
            global_config_data: clone_bytes(&self.global_config_data),
            base_mint: self.base_mint,
            quote_mint: self.quote_mint,
            vault_base_key: self.vault_base_key,
            vault_quote_key: self.vault_quote_key,
            tokens: clone_tokens(&self.tokens),
            routing_flags: self.routing_flags,
            cfg_swap_halted: self.cfg_swap_halted,
            cfg_protocol_halted: self.cfg_protocol_halted,
            strategy_frozen: self.strategy_frozen,
            strategy_frozen_admin: self.strategy_frozen_admin,
            mm_frozen: self.mm_frozen,
            mm_frozen_admin: self.mm_frozen_admin,
            mm_halted_admin: self.mm_halted_admin,
            current_slot: self.current_slot,
            current_unix_sec: self.current_unix_sec,
        }
    }
}

impl QuayVenue {
    #[verifier::type_invariant]
    spec fn addresses_are_derived(self) -> bool {
        &&& global_config_search(self.program_id) is Some
        &&& self.global_config_key.0@ == found(global_config_search(self.program_id))
        &&& vault_search(self.program_id, self.mm_key, self.base_mint) is Some
        &&& self.vault_base_key.0@ == found(vault_search(self.program_id, self.mm_key, self.base_mint))
        &&& vault_search(self.program_id, self.mm_key, self.quote_mint) is Some
        &&& self.vault_quote_key.0@ == found(vault_search(self.program_id, self.mm_key, self.quote_mint))
    }

    /// Build a venue from its Strategy account. The program id is the
    /// account's owner; the mints, Quotes account and owner come from the
    /// Strategy header, and the MarketMaker, GlobalConfig and vault addresses
    /// are derived from them. Every halt byte reads set until the first
    /// `update_state`.
    pub fn from_account(pubkey: &Pubkey, account: &Account) -> (r: Result<Self, TradingVenueError>)
        ensures
            !header_accepts(account.data@, STRATEGY_HEADER_SIZE, STRATEGY_DISCRIMINATOR) ==> r == Err::<Self, _>(
                TradingVenueError::DeserializationFailed(ErrorInfo::Layout("StrategyHeader", header_error(account.data@, STRATEGY_HEADER_SIZE)))),
            header_accepts(account.data@, STRATEGY_HEADER_SIZE, STRATEGY_DISCRIMINATOR) ==> {
                &&& r is Ok <==> strategy_addresses_found(account.owner, account.data@)
                &&& r matches Err(e) ==> e is AddressDerivationFailed
            },
            r matches Ok(v) ==> v@ == model_from_strategy(*pubkey, account.owner, account.data@),
            r matches Ok(v) ==> addresses_derived(v@),
    {
        let strategy = match strategy_header(account.data.as_slice()) {
            Ok(h) => h,
            Err(_) => {
                let e = if account.data.len() < STRATEGY_HEADER_SIZE {
                    LayoutError::TooShort { got: account.data.len(), need: STRATEGY_HEADER_SIZE }
                } else {
                    LayoutError::BadDiscriminator
                };
                return Err(TradingVenueError::DeserializationFailed(ErrorInfo::Layout("StrategyHeader", e)));
            },
        };
        proof {
            lemma_pubkey_of(strategy.owner);
            lemma_pubkey_of(strategy.base_mint);
            lemma_pubkey_of(strategy.quote_mint);
            lemma_pubkey_of(strategy.quotes_account);
        }
        let program_id = account.owner;
        let mm_key = match market_maker_address(&program_id, &strategy.owner) {
            Some(k) => k,
            None => return Err(TradingVenueError::AddressDerivationFailed(ErrorInfo::Pubkey(strategy.owner))),
        };
        proof {
            lemma_pubkey_of(mm_key);
        }
        let global_config_key = match global_config_address(&program_id) {
            Some(k) => k,
            None => return Err(TradingVenueError::AddressDerivationFailed(ErrorInfo::Pubkey(program_id))),
        };
        let vault_base_key = match vault_address(&program_id, &mm_key, &strategy.base_mint) {
            Some(k) => k,
            None => return Err(TradingVenueError::AddressDerivationFailed(ErrorInfo::Pubkey(strategy.base_mint))),
        };
        let vault_quote_key = match vault_address(&program_id, &mm_key, &strategy.quote_mint) {
            Some(k) => k,
            None => return Err(TradingVenueError::AddressDerivationFailed(ErrorInfo::Pubkey(strategy.quote_mint))),
        };
        proof {
            lemma_pubkey_of(global_config_key);
            lemma_pubkey_of(vault_base_key);
            lemma_pubkey_of(vault_quote_key);
        }
        let strategy_data = clone_bytes(&account.data);
        let v = QuayVenue {
            program_id,
            strategy_key: *pubkey,
            strategy_data,
            mm_key,
            mm_data: Vec::new(),
            quotes_key: strategy.quotes_account,
            quotes_data: Vec::new(),
            global_config_key,
            global_config_data: Vec::new(),
            base_mint: strategy.base_mint,
            quote_mint: strategy.quote_mint,
            vault_base_key,
            vault_quote_key,
            tokens: Vec::new(),
            routing_flags: strategy.routing_flags,
            cfg_swap_halted: 1,
            cfg_protocol_halted: 1,
            strategy_frozen: 1,
            strategy_frozen_admin: 1,
            mm_frozen: 1,
            mm_frozen_admin: 1,
            mm_halted_admin: 1,
            current_slot: 0,
            current_unix_sec: 0,
        };
        assert(v@.mm_data =~= Seq::<u8>::empty());
        assert(v@.quotes_data =~= Seq::<u8>::empty());
        assert(v@.global_config_data =~= Seq::<u8>::empty());
        assert(v@.tokens =~= Seq::<TokenInfo>::empty());
        Ok(v)
    }
}

impl QuayVenue {
    /// Whether the MarketMaker, Quotes and GlobalConfig data have been loaded.
    fn has_all_state(&self) -> (r: bool)
        ensures
            r == has_all_state_spec(self@),
    {
        self.mm_data.len() > 0 && self.quotes_data.len() > 0 && self.global_config_data.len() > 0
    }

    /// Whether every halt and freeze byte the program checks is clear.
    fn halts_clear(&self) -> (r: bool)
        ensures
            r == halts_clear_spec(self@),
    {
        self.cfg_swap_halted == 0 && self.cfg_protocol_halted == 0 && self.strategy_frozen == 0
            && self.strategy_frozen_admin == 0 && self.mm_frozen == 0 && self.mm_frozen_admin == 0
            && self.mm_halted_admin == 0
    }

    /// Whether either mint carries a transfer fee.
    fn any_transfer_fee(&self) -> (r: bool)
        ensures
            r == any_transfer_fee_spec(self@.tokens),
    {
        let mut i: usize = 0;
        while i < self.tokens.len()
            invariant
                0 <= i <= self.tokens@.len(),
                forall|j: int| 0 <= j < i ==> (#[trigger] self.tokens@[j]).transfer_fee is None,
            decreases self.tokens@.len() - i,
        {
            if self.tokens[i].transfer_fee.is_some() {
                assert(self.tokens@[i as int].transfer_fee is Some);
                return true;
            }
            i = i + 1;
        }
        false
    }

    /// The token program owning `mint`, from the loaded metadata.
    fn token_program_for(&self, mint: &Pubkey) -> (r: Option<Pubkey>)
        ensures
            r == (match find_token(self@.tokens, *mint) {
                Some(t) => Some(token_program_of(t)),
                None => None,
            }),
    {
        match find_token_exec(&self.tokens, mint) {
            Some(t) => Some(t.get_token_program()),
            None => None,
        }
    }

    /// The venue with its simulation clock set to `current_slot` and `current_unix_sec`.
    pub fn with_clock(self, current_slot: u64, current_unix_sec: i64) -> (r: Self)
        ensures
            r@ == (QuayModel { current_slot, current_unix_sec, ..self@ }),
    {
        let mut v = self;
        v.set_clock(current_slot, current_unix_sec);
        v
    }

    /// Set the simulation clock (the next `update_state` overwrites it from the
    /// `Clock` sysvar).
    pub fn set_clock(&mut self, current_slot: u64, current_unix_sec: i64)
        ensures
            final(self)@ == (QuayModel { current_slot, current_unix_sec, ..old(self)@ }),
    {
        proof {
            use_type_invariant(&*self);
        }
        self.current_slot = current_slot;
        self.current_unix_sec = current_unix_sec;
    }

    /// Whether the venue can be routed: the strategy is opted into Titan, its
    /// state is loaded, no halt or freeze is set, and neither mint carries a
    /// transfer fee.
    pub fn initialized(&self) -> (r: bool)
        ensures
            r == initialized_spec(self@),
    {
        self.routing_flags & ROUTE_TITAN != 0 && self.has_all_state() && self.halts_clear() && !self.any_transfer_fee()
    }

    /// The Quay program the Strategy belongs to.
    pub fn program_id(&self) -> (r: Pubkey)
        ensures
            r == self@.program_id,
    {
        self.program_id
    }

    /// The programs a swap may invoke: SPL Token, Token-2022 and the System program.
    pub fn program_dependencies(&self) -> (r: Vec<Pubkey>)
        ensures
            r@ == seq![spl_token_program(), token_2022_program(), system_program()],
    {
        let mut v = Vec::new();
        v.push(spl_token_program());
        v.push(token_2022_program());
        v.push(system_program());
        assert(v@ =~= seq![spl_token_program(), token_2022_program(), system_program()]);
        v
    }

    /// The Strategy account.
    pub fn market_id(&self) -> (r: Pubkey)
        ensures
            r == self@.strategy_key,
    {
        self.strategy_key
    }

    /// The `[base, quote]` metadata; empty before the first update.
    pub fn get_token_info(&self) -> (r: &[TokenInfo])
        ensures
            r@ == self@.tokens,
    {
        self.tokens.as_slice()
    }

    pub fn protocol(&self) -> (r: PoolProtocol)
        ensures
            r == PoolProtocol::Quay,
    {
        PoolProtocol::Quay
    }

    /// The nine accounts `update_state` reads: Strategy, MarketMaker, Quotes,
    /// GlobalConfig, base and quote mints, base and quote vaults, `Clock` sysvar.
    pub fn get_required_pubkeys_for_update(&self) -> (r: Result<Vec<Pubkey>, TradingVenueError>)
        ensures
            r matches Ok(v) && v@ == required_keys(self@),
    {
        let mut v = Vec::new();
        v.push(self.strategy_key);
        v.push(self.mm_key);
        v.push(self.quotes_key);
        v.push(self.global_config_key);
        v.push(self.base_mint);
        v.push(self.quote_mint);
        v.push(self.vault_base_key);
        v.push(self.vault_quote_key);
        v.push(sysvar_clock());
        assert(v@ =~= required_keys(self@));
        Ok(v)
    }

    /// The account references of this venue's `swap` instruction for a taker,
    /// with a zero amount (`side` 0 sells base, 1 buys base).
    pub fn swap_account_metas(&self, taker: &Pubkey, taker_ata_base: &Pubkey, taker_ata_quote: &Pubkey, side: u8,
        base_token_program: &Pubkey, quote_token_program: &Pubkey) -> (r: Vec<AccountMeta>)
        requires
            side <= 1,
        ensures
            r@ == venue_swap_accounts(self@, *taker, *taker_ata_base, *taker_ata_quote, side, *base_token_program, *quote_token_program),
    {
        proof {
            use_type_invariant(self);
            lemma_pubkey_of(self.global_config_key);
            lemma_pubkey_of(self.vault_base_key);
            lemma_pubkey_of(self.vault_quote_key);
        }
        let ix = swap_instruction(&self.program_id, &self.strategy_key, &self.mm_key, &self.quotes_key,
            &self.base_mint, &self.quote_mint, taker, taker_ata_base, taker_ata_quote,
            base_token_program, quote_token_program, 0, 0, side);
        ix.accounts
    }

    /// The address-lookup-table keys: the venue's stable accounts (all but
    /// the taker and its token accounts), then SPL Token, Token-2022 and the
    /// System program.
    pub fn get_lookup_table_keys(&self) -> (r: Result<Vec<Pubkey>, TradingVenueError>)
        ensures
            r matches Ok(v) && v@ == lookup_keys(self@),
    {
        let mut keys = Vec::new();
        keys.push(self.program_id);
        keys.push(self.global_config_key);
        keys.push(self.strategy_key);
        keys.push(self.mm_key);
        keys.push(self.quotes_key);
        keys.push(self.vault_base_key);
        keys.push(self.vault_quote_key);
        keys.push(self.base_mint);
        keys.push(self.quote_mint);
        keys.push(instructions_sysvar());
        let mut deps = self.program_dependencies();
        keys.append(&mut deps);
        assert(keys@ =~= lookup_keys(self@));
        Ok(keys)
    }
}

impl QuayVenue {
    /// The simulator's output for swapping `amount` on `side` against the
    /// cached accounts and clock; `None` where it refuses the swap.
    fn simulate(&self, side: u8, base_decimals: u8, quote_decimals: u8, amount: u64) -> (r: Option<u64>)
        ensures
            r == sim(self@, side, base_decimals, quote_decimals, amount),
            r matches Some(out) ==> out > 0,
    {
        simulate_swap_in(self.strategy_data.as_slice(), self.mm_data.as_slice(), self.quotes_data.as_slice(),
            self.global_config_data.as_slice(), self.current_slot, self.current_unix_sec, side, amount, 0,
            base_decimals, quote_decimals, 0)
    }

    /// The spot rate: probe with `probe` atoms, shrinking by sixteenths until a
    /// probe fills.
    fn spot_price(&self, side: u8, base_decimals: u8, quote_decimals: u8, probe: u64) -> (r: MarginalPrice)
        requires
            probe >= 1,
        ensures
            r == spot_price_search(self@, side, base_decimals, quote_decimals, probe),
            r.denominator >= 1,
            r.numerator > 0 || r == zero_price(),
    {
        let mut p: u64 = probe;
        loop
            invariant
                p >= 1,
                spot_price_search(self@, side, base_decimals, quote_decimals, probe)
                    == spot_price_search(self@, side, base_decimals, quote_decimals, p),
            decreases p,
        {
            match self.simulate(side, base_decimals, quote_decimals, p) {
                Some(out) => {
                    return MarginalPrice { numerator: out, denominator: p };
                },
                None => {
                    if p > 1 {
                        p = if p / 16 >= 1 { p / 16 } else { 1 };
                    } else {
                        return MarginalPrice { numerator: 0, denominator: 1 };
                    }
                },
            }
        }
    }

    /// Quote an exact-in swap between the strategy's two mints by simulating it.
    ///
    /// A zero amount quotes the spot rate `f(p) / p` at the first probe that
    /// fills, starting at one whole input unit. A non-zero amount the simulator
    /// refuses is flagged short of liquidity with zero output. Otherwise the
    /// price is the finite-difference marginal rate (see `marginal_price`).
    pub fn quote(&self, request: QuoteRequest) -> (r: Result<QuoteResult, TradingVenueError>)
        ensures
            r == quote_spec(self@, request),
            r matches Ok(q) ==> q.price matches Some(p) && p.denominator >= 1,
            r matches Ok(q) ==> (q.amount > 0 && !q.not_enough_liquidity ==> q.expected_output > 0 && q.price->0.numerator > 0),
            r matches Ok(q) ==> (q.amount == 0 ==> q.price->0.numerator > 0 || q.price->0 == zero_price()),
    {
        match request.swap_type {
            SwapType::ExactOut => return Err(TradingVenueError::ExactOutNotSupported),
            SwapType::ExactIn => {},
        }
        let side: u8 = if request.input_mint == self.base_mint && request.output_mint == self.quote_mint {
            SIDE_SELL_BASE
        } else if request.input_mint == self.quote_mint && request.output_mint == self.base_mint {
            SIDE_BUY_BASE
        } else {
            return Err(TradingVenueError::InvalidMint(ErrorInfo::Pubkey(request.input_mint)));
        };
        if !self.initialized() {
            return Err(TradingVenueError::NotInitialized(ErrorInfo::Pubkey(self.strategy_key)));
        }
        let base_decimals: u8 = match find_token_exec(&self.tokens, &self.base_mint) {
            Some(t) => t.decimals as u8,
            None => return Err(TradingVenueError::MissingState(ErrorInfo::StaticStr("base TokenInfo"))),
        };
        let quote_decimals: u8 = match find_token_exec(&self.tokens, &self.quote_mint) {
            Some(t) => t.decimals as u8,
            None => return Err(TradingVenueError::MissingState(ErrorInfo::StaticStr("quote TokenInfo"))),
        };
        let in_decimals = if side == SIDE_SELL_BASE { base_decimals } else { quote_decimals };
        let probe = spot_probe(in_decimals);
        proof {
            if pow10(in_decimals as nat) <= u64::MAX {
                lemma_pow10_positive(in_decimals as nat);
            }
        }
        if request.amount == 0 {
            let price = self.spot_price(side, base_decimals, quote_decimals, probe);
            return Ok(QuoteResult {
                input_mint: request.input_mint,
                output_mint: request.output_mint,
                amount: 0,
                expected_output: 0,
                not_enough_liquidity: false,
                price: Some(price),
            });
        }
        let a = request.amount;
        let out = match self.simulate(side, base_decimals, quote_decimals, a) {
            Some(o) => o,
            None => return Ok(QuoteResult {
                input_mint: request.input_mint,
                output_mint: request.output_mint,
                amount: a,
                expected_output: 0,
                not_enough_liquidity: true,
                price: Some(MarginalPrice { numerator: 0, denominator: 1 }),
            }),
        };
        let h = price_step(a, out);
        let up = self.simulate(side, base_decimals, quote_decimals, a.saturating_add(h));
        let forward = match up {
            Some(u) => u > out,
            None => false,
        };
        let down = if forward { None } else { self.simulate(side, base_decimals, quote_decimals, a.saturating_sub(h)) };
        let price = marginal_price(a, out, h, up, down);
        assert(price == marginal_price_spec(a, out, h, up, sim(self@, side, base_decimals, quote_decimals, a.saturating_sub(h))));
        Ok(QuoteResult {
            input_mint: request.input_mint,
            output_mint: request.output_mint,
            amount: a,
            expected_output: out,
            not_enough_liquidity: false,
            price: Some(price),
        })
    }
}

proof fn lemma_pow10_positive(n: nat)
    ensures
        pow10(n) >= 1,
    decreases n,
{
    if n > 0 {
        lemma_pow10_positive((n - 1) as nat);
    }
}

impl QuayVenue {
    /// Load the venue's state from `accounts`, the accounts of
    /// `get_required_pubkeys_for_update` in order: the Strategy header (freeze
    /// bytes and routing flags), the MarketMaker header (halt and freeze bytes),
    /// the Quotes data, the GlobalConfig (halt bytes), the two mints' metadata,
    /// the presence of both vaults, and the clock from the `Clock` sysvar. The
    /// first missing or undecodable account stops the update with an error,
    /// keeping what was loaded before it.
    pub fn update_state(&mut self, accounts: &[Option<Account>]) -> (r: Result<(), TradingVenueError>)
        ensures
            (final(self)@, r) == update_spec(old(self)@, accounts@),
    {
        proof {
            use_type_invariant(&*self);
        }
        if accounts.len() != 9 {
            return Err(TradingVenueError::FailedToFetchMultipleAccountData);
        }
        let strategy_account = match &accounts[0] {
            Some(a) => a,
            None => return Err(TradingVenueError::NoAccountFound(ErrorInfo::Pubkey(self.strategy_key))),
        };
        self.strategy_data = clone_bytes(&strategy_account.data);
        let strategy = match strategy_header(self.strategy_data.as_slice()) {
            Ok(h) => h,
            Err(_) => {
                let e = if self.strategy_data.len() < STRATEGY_HEADER_SIZE {
                    LayoutError::TooShort { got: self.strategy_data.len(), need: STRATEGY_HEADER_SIZE }
                } else {
                    LayoutError::BadDiscriminator
                };
                return Err(TradingVenueError::DeserializationFailed(ErrorInfo::Layout("StrategyHeader", e)));
            },
        };
        self.strategy_frozen = strategy.frozen;
        self.strategy_frozen_admin = strategy.frozen_admin;
        self.routing_flags = strategy.routing_flags;

        let mm_account = match &accounts[1] {
            Some(a) => a,
            None => return Err(TradingVenueError::NoAccountFound(ErrorInfo::Pubkey(self.mm_key))),
        };
        self.mm_data = clone_bytes(&mm_account.data);
        let mm = match market_maker_header(self.mm_data.as_slice()) {
            Ok(h) => h,
            Err(_) => {
                let e = if self.mm_data.len() < MARKET_MAKER_HEADER_SIZE {
                    LayoutError::TooShort { got: self.mm_data.len(), need: MARKET_MAKER_HEADER_SIZE }
                } else {
                    LayoutError::BadDiscriminator
                };
                return Err(TradingVenueError::DeserializationFailed(ErrorInfo::Layout("MarketMakerHeader", e)));
            },
        };
        self.mm_frozen = mm.frozen;
        self.mm_frozen_admin = mm.frozen_admin;
        self.mm_halted_admin = mm.halted_admin;

        let quotes_account = match &accounts[2] {
            Some(a) => a,
            None => return Err(TradingVenueError::NoAccountFound(ErrorInfo::Pubkey(self.quotes_key))),
        };
        self.quotes_data = clone_bytes(&quotes_account.data);

        let cfg_account = match &accounts[3] {
            Some(a) => a,
            None => return Err(TradingVenueError::NoAccountFound(ErrorInfo::Pubkey(self.global_config_key))),
        };
        self.global_config_data = clone_bytes(&cfg_account.data);
        let cfg = match global_config_header(self.global_config_data.as_slice()) {
            Ok(h) => h,
            Err(_) => {
                let e = if self.global_config_data.len() < GLOBAL_CONFIG_SIZE {
                    LayoutError::TooShort { got: self.global_config_data.len(), need: GLOBAL_CONFIG_SIZE }
                } else {
                    LayoutError::BadDiscriminator
                };
                return Err(TradingVenueError::DeserializationFailed(ErrorInfo::Layout("GlobalConfig", e)));
            },
        };
        self.cfg_swap_halted = cfg.swap_halted;
        self.cfg_protocol_halted = cfg.protocol_halted;

        let base_mint_account = match &accounts[4] {
            Some(a) => a,
            None => return Err(TradingVenueError::NoAccountFound(ErrorInfo::Pubkey(self.base_mint))),
        };
        let quote_mint_account = match &accounts[5] {
            Some(a) => a,
            None => return Err(TradingVenueError::NoAccountFound(ErrorInfo::Pubkey(self.quote_mint))),
        };
        let base_info = match TokenInfo::new(&self.base_mint, base_mint_account, 0) {
            Ok(t) => t,
            Err(e) => return Err(e),
        };
        let quote_info = match TokenInfo::new(&self.quote_mint, quote_mint_account, 0) {
            Ok(t) => t,
            Err(e) => return Err(e),
        };
        let mut tokens: Vec<TokenInfo> = Vec::new();
        tokens.push(base_info);
        tokens.push(quote_info);
        assert(tokens@ =~= seq![base_info, quote_info]);
        self.tokens = tokens;

        if accounts[6].is_none() {
            return Err(TradingVenueError::NoAccountFound(ErrorInfo::Pubkey(self.vault_base_key)));
        }
        if accounts[7].is_none() {
            return Err(TradingVenueError::NoAccountFound(ErrorInfo::Pubkey(self.vault_quote_key)));
        }
        let clock_account = match &accounts[8] {
            Some(a) => a,
            None => return Err(TradingVenueError::NoAccountFound(ErrorInfo::Pubkey(sysvar_clock()))),
        };
        let (slot, unix_sec) = match decode_clock(clock_account.data.as_slice()) {
            Some(c) => c,
            None => return Err(TradingVenueError::DeserializationFailed(ErrorInfo::StaticStr("Clock sysvar too short"))),
        };
        self.current_slot = slot;
        self.current_unix_sec = unix_sec;
        Ok(())
    }

    /// Build the `swap` instruction for `user`: the user's token accounts are
    /// derived under each mint's own token program, and the minimum output is
    /// zero (slippage is checked upstream of the venue).
    pub fn generate_swap_instruction(&self, request: QuoteRequest, user: Pubkey) -> (r: Result<Instruction, TradingVenueError>)
        ensures
            r is Err <==> swap_plan(self@, request, user) is Err,
            r matches Err(e) ==> swap_plan(self@, request, user) == Err::<(u8, Pubkey, Pubkey, Pubkey, Pubkey), _>(e),
            r matches Ok(ix) ==> swap_plan(self@, request, user) matches Ok((side, bp, qp, ata_base, ata_quote)) && {
                &&& ix.program_id == self@.program_id
                &&& ix.accounts@ == venue_swap_accounts(self@, user, ata_base, ata_quote, side, bp, qp)
                &&& ix.data@ == swap_ix_data(request.amount, 0, side)
            },
    {
        proof {
            use_type_invariant(self);
            lemma_pubkey_of(self.global_config_key);
            lemma_pubkey_of(self.vault_base_key);
            lemma_pubkey_of(self.vault_quote_key);
        }
        match request.swap_type {
            SwapType::ExactOut => return Err(TradingVenueError::ExactOutNotSupported),
            SwapType::ExactIn => {},
        }
        let side: u8 = if request.input_mint == self.base_mint && request.output_mint == self.quote_mint {
            SIDE_SELL_BASE
        } else if request.input_mint == self.quote_mint && request.output_mint == self.base_mint {
            SIDE_BUY_BASE
        } else {
            return Err(TradingVenueError::InvalidMint(ErrorInfo::Pubkey(request.input_mint)));
        };
        let base_program = match self.token_program_for(&self.base_mint) {
            Some(p) => p,
            None => return Err(TradingVenueError::MissingState(ErrorInfo::StaticStr("base TokenInfo"))),
        };
        let quote_program = match self.token_program_for(&self.quote_mint) {
            Some(p) => p,
            None => return Err(TradingVenueError::MissingState(ErrorInfo::StaticStr("quote TokenInfo"))),
        };
        let taker_ata_base = match get_associated_token_address_with_program_id(&user, &self.base_mint, &base_program) {
            Some(k) => k,
            None => return Err(TradingVenueError::AddressDerivationFailed(ErrorInfo::Pubkey(user))),
        };
        let taker_ata_quote = match get_associated_token_address_with_program_id(&user, &self.quote_mint, &quote_program) {
            Some(k) => k,
            None => return Err(TradingVenueError::AddressDerivationFailed(ErrorInfo::Pubkey(user))),
        };
        proof {
            lemma_pubkey_of(taker_ata_base);
            lemma_pubkey_of(taker_ata_quote);
        }
        let ix = swap_instruction(&self.program_id, &self.strategy_key, &self.mm_key, &self.quotes_key,
            &self.base_mint, &self.quote_mint, &user, &taker_ata_base, &taker_ata_quote,
            &base_program, &quote_program, request.amount, 0, side);
        Ok(ix)
    }
}

/// A venue that `initialized` reports not ready never quotes: every successful
/// quote comes from an initialized venue, and an exact-in request between the
/// strategy's mints is refused as not initialized exactly when it is not.
pub proof fn lemma_quote_requires_initialized(m: QuayModel, request: QuoteRequest)
    ensures
        quote_spec(m, request) is Ok ==> initialized_spec(m),
        (request.swap_type == SwapType::ExactIn && side_of(m, request) is Some) ==> (
            quote_spec(m, request) == Err::<QuoteResult, _>(TradingVenueError::NotInitialized(ErrorInfo::Pubkey(m.strategy_key)))
                <==> !initialized_spec(m)),
{
}

/// Any one halt or freeze byte set keeps the venue out of routing.
pub proof fn lemma_any_halt_blocks_routing(m: QuayModel)
    requires
        m.cfg_swap_halted != 0 || m.cfg_protocol_halted != 0 || m.strategy_frozen != 0 || m.strategy_frozen_admin != 0
            || m.mm_frozen != 0 || m.mm_frozen_admin != 0 || m.mm_halted_admin != 0,
    ensures
        !initialized_spec(m),
{
}

/// A mint with a transfer fee keeps the venue out of routing.
pub proof fn lemma_transfer_fee_blocks_routing(m: QuayModel, i: int)
    requires
        0 <= i < m.tokens.len(),
        m.tokens[i].transfer_fee is Some,
    ensures
        !initialized_spec(m),
{
}

/// Only the Titan bit of the routing flags decides whether Titan routes the
/// strategy: other routers' bits neither enable nor disable it.
pub proof fn lemma_titan_bit(flags: u8)
    ensures
        titan_routed(flags) <==> flags & 1 == 1,
        titan_routed(flags | 2) == titan_routed(flags),
{
    assert(flags & 1 != 0 <==> flags & 1 == 1) by (bit_vector);
    assert(((flags | 2) & 1) == (flags & 1)) by (bit_vector);
}

/// A freshly built venue is not routed: every halt byte reads set until the
/// first update.
pub proof fn lemma_fresh_venue_not_routed(key: Pubkey, program_id: Pubkey, data: Seq<u8>)
    ensures
        !initialized_spec(model_from_strategy(key, program_id, data)),
{
}

/// `update_state` never moves the venue: its program, Strategy, MarketMaker,
/// Quotes, GlobalConfig, mints and vaults stay the accounts it was built from.
pub proof fn lemma_update_keeps_addresses(m: QuayModel, a: Seq<Option<Account>>)
    ensures
        ({
            let n = update_spec(m, a).0;
            &&& n.program_id == m.program_id
            &&& n.strategy_key == m.strategy_key
            &&& n.mm_key == m.mm_key
            &&& n.quotes_key == m.quotes_key
            &&& n.global_config_key == m.global_config_key
            &&& n.base_mint == m.base_mint
            &&& n.quote_mint == m.quote_mint
            &&& n.vault_base_key == m.vault_base_key
            &&& n.vault_quote_key == m.vault_quote_key
        }),
{
}

/// A successful update loads all of the state: the clock is the `Clock`
/// sysvar's, the metadata is `[base, quote]`, and the halt bytes are the
/// headers' own.
pub proof fn lemma_update_success_loads_state(m: QuayModel, a: Seq<Option<Account>>)
    requires
        update_spec(m, a).1 is Ok,
    ensures
        ({
            let n = update_spec(m, a).0;
            &&& a.len() == 9
            &&& forall|i: int| 0 <= i < 9 ==> (#[trigger] a[i]) is Some
            &&& clock_spec(a[8]->0.data@) == Some((n.current_slot, n.current_unix_sec))
            &&& n.tokens.len() == 2
            &&& n.tokens[0].pubkey == m.base_mint
            &&& n.tokens[1].pubkey == m.quote_mint
            &&& n.strategy_data == a[0]->0.data@
            &&& n.mm_data == a[1]->0.data@
            &&& n.quotes_data == a[2]->0.data@
            &&& n.global_config_data == a[3]->0.data@
            &&& n.routing_flags == a[0]->0.data@[160]
            &&& n.mm_halted_admin == a[1]->0.data@[3]
            &&& n.cfg_swap_halted == a[3]->0.data@[2]
        }),
{
}

/// A zero-amount quote reports zero output and never flags a liquidity shortfall.
pub proof fn lemma_zero_input_quote(m: QuayModel, request: QuoteRequest)
    requires
        request.amount == 0,
        quote_spec(m, request) is Ok,
    ensures
        quote_spec(m, request)->Ok_0.expected_output == 0,
        !quote_spec(m, request)->Ok_0.not_enough_liquidity,
        quote_spec(m, request)->Ok_0.price is Some,
{
}

/// The finite-difference rate of a filled quote is positive.
pub proof fn lemma_marginal_price_positive(amount: u64, out: u64, h: u64, up: Option<u64>, down: Option<u64>)
    requires
        amount > 0,
        out > 0,
        h > 0,
    ensures
        marginal_price_spec(amount, out, h, up, down).numerator > 0,
        marginal_price_spec(amount, out, h, up, down).denominator > 0,
{
}

/// The spot-price search from a probe of at least one atom reports a rate with
/// a positive denominator.
pub proof fn lemma_spot_price_denominator(m: QuayModel, side: u8, bd: u8, qd: u8, p: u64)
    requires
        p >= 1,
    ensures
        spot_price_search(m, side, bd, qd, p).denominator >= 1,
    decreases p,
{
    if sim(m, side, bd, qd, p) is None && p > 1 {
        lemma_spot_price_denominator(m, side, bd, qd, next_probe(p));
    }
}

/// A quote is simulated on the side its mints name: base in and quote out is a
/// sale of base (side 0), quote in and base out a purchase of base (side 1).
/// For a routable venue with both mints' metadata loaded, a non-zero request
/// fills exactly the simulator's output on that side for that amount, with no
/// minimum output and the mints' decimals, and is flagged short of liquidity
/// exactly when the simulator refuses it.
pub proof fn lemma_quote_simulates_requested_side(m: QuayModel, request: QuoteRequest)
    requires
        request.swap_type == SwapType::ExactIn,
        request.amount > 0,
        initialized_spec(m),
        find_token(m.tokens, m.base_mint) is Some,
        find_token(m.tokens, m.quote_mint) is Some,
        (request.input_mint == m.base_mint && request.output_mint == m.quote_mint)
            || (request.input_mint == m.quote_mint && request.output_mint == m.base_mint && m.base_mint != m.quote_mint),
    ensures
        ({
            let side: u8 = if request.input_mint == m.base_mint && request.output_mint == m.quote_mint { 0u8 } else { 1u8 };
            let bd = find_token(m.tokens, m.base_mint)->0.decimals as u8;
            let qd = find_token(m.tokens, m.quote_mint)->0.decimals as u8;
            let out = simulated_swap_out(m.strategy_data, m.mm_data, m.quotes_data, m.global_config_data,
                m.current_slot, m.current_unix_sec, side, request.amount, 0, bd, qd, 0);
            &&& quote_spec(m, request) is Ok
            &&& quote_spec(m, request)->Ok_0.amount == request.amount
            &&& quote_spec(m, request)->Ok_0.input_mint == request.input_mint
            &&& quote_spec(m, request)->Ok_0.output_mint == request.output_mint
            &&& quote_spec(m, request)->Ok_0.not_enough_liquidity == (out is None)
            &&& out matches Some(o) ==> quote_spec(m, request)->Ok_0.expected_output == o
            &&& out is None ==> quote_spec(m, request)->Ok_0.expected_output == 0
        }),
{
}

/// A zero-amount quote reports the spot rate of the side its mints name, probed
/// from one whole unit of the input token: base in probes with the base
/// decimals on side 0, quote in with the quote decimals on side 1.
pub proof fn lemma_zero_quote_probes_requested_side(m: QuayModel, request: QuoteRequest)
    requires
        request.swap_type == SwapType::ExactIn,
        request.amount == 0,
        initialized_spec(m),
        find_token(m.tokens, m.base_mint) is Some,
        find_token(m.tokens, m.quote_mint) is Some,
        (request.input_mint == m.base_mint && request.output_mint == m.quote_mint)
            || (request.input_mint == m.quote_mint && request.output_mint == m.base_mint && m.base_mint != m.quote_mint),
    ensures
        ({
            let sell = request.input_mint == m.base_mint && request.output_mint == m.quote_mint;
            let side: u8 = if sell { 0u8 } else { 1u8 };
            let bd = find_token(m.tokens, m.base_mint)->0.decimals as u8;
            let qd = find_token(m.tokens, m.quote_mint)->0.decimals as u8;
            &&& quote_spec(m, request) is Ok
            &&& quote_spec(m, request)->Ok_0.expected_output == 0
            &&& !quote_spec(m, request)->Ok_0.not_enough_liquidity
            &&& quote_spec(m, request)->Ok_0.price == Some(spot_price_search(m, side, bd, qd, probe_spec(if sell { bd } else { qd })))
        }),
{
}

/// The spot-price search reports `f(p) / p` for the first probe the
/// simulator fills on `side`; a refused probe above one atom moves on to a
/// sixteenth of it (at least one atom); a refused single atom gives zero.
pub proof fn lemma_spot_price_first_fill(m: QuayModel, side: u8, bd: u8, qd: u8, p: u64)
    ensures
        ({
            let out = simulated_swap_out(m.strategy_data, m.mm_data, m.quotes_data, m.global_config_data,
                m.current_slot, m.current_unix_sec, side, p, 0, bd, qd, 0);
            &&& out matches Some(o) ==> spot_price_search(m, side, bd, qd, p) == (MarginalPrice { numerator: o, denominator: p })
            &&& (out is None && p > 1) ==> spot_price_search(m, side, bd, qd, p)
                == spot_price_search(m, side, bd, qd, if p / 16 >= 1 { (p / 16) as u64 } else { 1u64 })
            &&& (out is None && p <= 1) ==> spot_price_search(m, side, bd, qd, p) == (MarginalPrice { numerator: 0, denominator: 1 })
        }),
{
}

} // verus!
