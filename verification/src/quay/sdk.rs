//! The calls into `quay_sdk`: account-header decoders, the swap simulator and
//! the `swap` instruction builder.

use vstd::prelude::*;

use crate::le_bytes::u64_le;
use crate::pda::program_address;
use crate::programs::instructions_sysvar;
use crate::trading_venue::{pubkey_of, AccountMeta, Instruction, Pubkey};

verus! {

/// The client error of `quay_sdk`, carried opaquely.
#[verifier::external_type_specification]
#[verifier::external_body]
pub struct ExClientError(quay_sdk::error::ClientError);

/// The fields of a Strategy header the venue reads.
#[derive(Clone, Copy, Debug)]
pub struct StrategyFields {
    pub frozen_admin: u8,
    pub frozen: u8,
    pub owner: Pubkey,
    pub base_mint: Pubkey,
    pub quote_mint: Pubkey,
    pub quotes_account: Pubkey,
    pub routing_flags: u8,
}

/// The halt and freeze bytes of a MarketMaker header.
#[derive(Clone, Copy, Debug)]
pub struct MarketMakerFlags {
    pub frozen_admin: u8,
    pub halted_admin: u8,
    pub frozen: u8,
}

/// The halt bytes of the GlobalConfig header.
#[derive(Clone, Copy, Debug)]
pub struct GlobalConfigFlags {
    pub swap_halted: u8,
    pub protocol_halted: u8,
}

/// Size of the Strategy header.
pub const STRATEGY_HEADER_SIZE: usize = 256;
/// Size of the MarketMaker header.
pub const MARKET_MAKER_HEADER_SIZE: usize = 64;
/// Size of the GlobalConfig account.
pub const GLOBAL_CONFIG_SIZE: usize = 128;
/// Leading byte of a Strategy account.
pub const STRATEGY_DISCRIMINATOR: u8 = 3;
/// Leading byte of a MarketMaker account.
pub const MARKET_MAKER_DISCRIMINATOR: u8 = 4;
/// Leading byte of the GlobalConfig account.
pub const GLOBAL_CONFIG_DISCRIMINATOR: u8 = 1;
/// Leading data byte of the `swap` instruction.
pub const SWAP_DISCRIMINATOR: u8 = 0x20;

/// The header decoders accept data at least `size` long with `disc` in front.
pub open spec fn header_accepts(data: Seq<u8>, size: usize, disc: u8) -> bool {
    data.len() >= size && data[0] == disc
}

/// Trusted: wraps `quay_sdk::state::StrategyHeader::try_from_account`, which
/// checks the length (256) and discriminator (3) and reads the packed header.
/// Claims when it succeeds and the byte offsets of the fields read.
#[verifier::external_body]
pub(crate) fn strategy_header(data: &[u8]) -> (r: Result<StrategyFields, quay_sdk::error::ClientError>)
    ensures
        r is Ok <==> header_accepts(data@, STRATEGY_HEADER_SIZE, STRATEGY_DISCRIMINATOR),
        r matches Ok(h) ==> {
            &&& h.frozen_admin == data@[4]
            &&& h.frozen == data@[5]
            &&& h.owner.0@ == data@.subrange(8, 40)
            &&& h.base_mint.0@ == data@.subrange(40, 72)
            &&& h.quote_mint.0@ == data@.subrange(72, 104)
            &&& h.quotes_account.0@ == data@.subrange(104, 136)
            &&& h.routing_flags == data@[160]
        },
{
    let h = *quay_sdk::state::StrategyHeader::try_from_account(data)?;
    Ok(StrategyFields {
        frozen_admin: h.frozen_admin,
        frozen: h.frozen,
        owner: Pubkey(h.owner),
        base_mint: Pubkey(h.base_mint),
        quote_mint: Pubkey(h.quote_mint),
        quotes_account: Pubkey(h.quotes_account),
        routing_flags: h.routing_flags,
    })
}

/// Trusted: wraps `quay_sdk::state::MarketMakerHeader::try_from_account`, which
/// checks the length (64) and discriminator (4). Claims when it succeeds and
/// the offsets of the three flag bytes.
#[verifier::external_body]
pub(crate) fn market_maker_header(data: &[u8]) -> (r: Result<MarketMakerFlags, quay_sdk::error::ClientError>)
    ensures
        r is Ok <==> header_accepts(data@, MARKET_MAKER_HEADER_SIZE, MARKET_MAKER_DISCRIMINATOR),
        r matches Ok(h) ==> h.frozen_admin == data@[2] && h.halted_admin == data@[3] && h.frozen == data@[4],
{
    let h = *quay_sdk::state::MarketMakerHeader::try_from_account(data)?;
    Ok(MarketMakerFlags { frozen_admin: h.frozen_admin, halted_admin: h.halted_admin, frozen: h.frozen })
}

/// Trusted: wraps `quay_sdk::state::GlobalConfig::try_from_account`, which
/// checks the length (128) and discriminator (1). Claims when it succeeds and
/// the offsets of the two halt bytes.
#[verifier::external_body]
pub(crate) fn global_config_header(data: &[u8]) -> (r: Result<GlobalConfigFlags, quay_sdk::error::ClientError>)
    ensures
        r is Ok <==> header_accepts(data@, GLOBAL_CONFIG_SIZE, GLOBAL_CONFIG_DISCRIMINATOR),
        r matches Ok(h) ==> h.swap_halted == data@[2] && h.protocol_halted == data@[3],
{
    let h = *quay_sdk::state::GlobalConfig::try_from_account(data)?;
    Ok(GlobalConfigFlags { swap_halted: h.swap_halted, protocol_halted: h.protocol_halted })
}

/// Names the output a simulated `swap` pays the taker for the given strategy,
/// MarketMaker, Quotes and GlobalConfig data, clock, side, input amount,
/// minimum output, mint decimals and last restart slot, evaluated in a direct
/// (top-level) transaction context with no external accounts; `None` where the
/// simulator refuses the swap.
pub uninterp spec fn simulated_swap_out(
    strategy: Seq<u8>,
    market_maker: Seq<u8>,
    quotes: Seq<u8>,
    global_config: Seq<u8>,
    current_slot: u64,
    current_unix_sec: i64,
    side: u8,
    amount_in: u64,
    min_amount_out: u64,
    base_decimals: u8,
    quote_decimals: u8,
    last_restart_slot: u64,
) -> Option<u64>;

/// Trusted: wraps `quay_sdk::simulate::simulate_swap_in` with a 16 KiB scratch
/// buffer (the program's userspace cap), `TxContext::DIRECT` and no external
/// accounts. Claims the result is the named simulation outcome (a function of
/// the arguments alone), that a side other than 0 or 1 is refused, and that a
/// successful simulation pays out a positive amount of at least `min_amount_out`
/// (the simulator refuses zero outputs and outputs below the minimum).
#[verifier::external_body]
pub(crate) fn simulate_swap_in(
    strategy_data: &[u8],
    market_maker_data: &[u8],
    quotes_data: &[u8],
    global_config_data: &[u8],
    current_slot: u64,
    current_unix_sec: i64,
    side: u8,
    amount_in: u64,
    min_amount_out: u64,
    base_decimals: u8,
    quote_decimals: u8,
    last_restart_slot: u64,
) -> (r: Option<u64>)
    ensures
        r == simulated_swap_out(strategy_data@, market_maker_data@, quotes_data@, global_config_data@,
            current_slot, current_unix_sec, side, amount_in, min_amount_out, base_decimals, quote_decimals, last_restart_slot),
        side > 1 ==> r is None,
        r matches Some(out) ==> out > 0 && out >= min_amount_out,
{
    let mut scratch = [0u8; 16384];
    let inputs = quay_sdk::simulate::SwapSimulationInputs {
        strategy_data, market_maker_data, quotes_data, global_config_data, current_slot, current_unix_sec,
        side, amount_in, min_amount_out, base_decimals, quote_decimals,
        tx: quay_sdk::TxContext::DIRECT, last_restart_slot, ext_accounts: &[],
    };
    quay_sdk::simulate::simulate_swap_in(inputs, &mut scratch).ok().map(|q| q.out_to_taker)
}

/// The `"global"` seed of the GlobalConfig address.
pub const SEED_GLOBAL: [u8; 6] = [103, 108, 111, 98, 97, 108];
/// The `"mm"` seed of a MarketMaker address.
pub const SEED_MM: [u8; 2] = [109, 109];
/// The `"vault"` seed of a vault token account address.
pub const SEED_VAULT: [u8; 5] = [118, 97, 117, 108, 116];

/// The GlobalConfig address search of a Quay deployment: seeds `["global"]`.
pub open spec fn global_config_search(program_id: Pubkey) -> Option<(Seq<u8>, u8)> {
    program_address(seq![SEED_GLOBAL@], program_id.0@)
}

/// The MarketMaker address search of `owner`: seeds `["mm", owner]`.
pub open spec fn market_maker_search(program_id: Pubkey, owner: Pubkey) -> Option<(Seq<u8>, u8)> {
    program_address(seq![SEED_MM@, owner.0@], program_id.0@)
}

/// The vault address search of `market_maker` for `mint`: seeds `["vault", market_maker, mint]`.
pub open spec fn vault_search(program_id: Pubkey, market_maker: Pubkey, mint: Pubkey) -> Option<(Seq<u8>, u8)> {
    program_address(seq![SEED_VAULT@, market_maker.0@, mint.0@], program_id.0@)
}

/// The address a search found.
pub open spec fn found(search: Option<(Seq<u8>, u8)>) -> Seq<u8> {
    (search->0).0
}

pub open spec fn readonly(k: Pubkey) -> AccountMeta {
    AccountMeta { pubkey: k, is_signer: false, is_writable: false }
}

pub open spec fn writable(k: Pubkey) -> AccountMeta {
    AccountMeta { pubkey: k, is_signer: false, is_writable: true }
}

pub open spec fn signer_writable(k: Pubkey) -> AccountMeta {
    AccountMeta { pubkey: k, is_signer: true, is_writable: true }
}

/// The data of a `swap` instruction: discriminator, input amount, minimum
/// output (both little-endian u64) and side.
pub open spec fn swap_ix_data(amount_in: u64, min_amount_out: u64, side: u8) -> Seq<u8> {
    seq![SWAP_DISCRIMINATOR] + u64_le(amount_in) + u64_le(min_amount_out) + seq![side]
}

/// The accounts of a `swap` instruction before the derived addresses: side 0
/// sells base (base is the input), side 1 buys base. `vault_base` and
/// `vault_quote` are the derived vault addresses, `cfg` the GlobalConfig.
pub open spec fn swap_ix_accounts(
    cfg: Pubkey, strategy: Pubkey, mm: Pubkey, quotes: Pubkey, vault_base: Pubkey, vault_quote: Pubkey,
    base_mint: Pubkey, quote_mint: Pubkey, taker: Pubkey, taker_ata_base: Pubkey, taker_ata_quote: Pubkey,
    base_token_program: Pubkey, quote_token_program: Pubkey, side: u8,
) -> Seq<AccountMeta> {
    let sell = side == 0;
    let head = seq![
        readonly(cfg),
        writable(strategy),
        writable(mm),
        readonly(quotes),
        writable(if sell { vault_base } else { vault_quote }),
        writable(if sell { vault_quote } else { vault_base }),
        writable(if sell { taker_ata_base } else { taker_ata_quote }),
        writable(if sell { taker_ata_quote } else { taker_ata_base }),
        signer_writable(taker),
        readonly(if sell { base_mint } else { quote_mint }),
        readonly(if sell { quote_mint } else { base_mint }),
        readonly(instructions_sysvar()),
        readonly(base_token_program)
    ];
    if quote_token_program == base_token_program { head } else { head.push(readonly(quote_token_program)) }
}

/// Trusted: wraps `quay_sdk::ix::swap`. The builder derives the GlobalConfig
/// and the two vault addresses with `find_program_address` of solana-pubkey
/// 2.4, which runs the same search (bumps 255 down to 1, the same hash and
/// curve test) as the 2.9 `try_find_program_address` that `program_address`
/// names, and panics where no address is found, which the `requires` rules
/// out. It also asserts `side <= 1`. Claims the program id, the
/// account list and the data bytes it lays out.
#[verifier::external_body]
pub(crate) fn swap_instruction(
    program_id: &Pubkey,
    strategy: &Pubkey,
    mm: &Pubkey,
    quotes: &Pubkey,
    base_mint: &Pubkey,
    quote_mint: &Pubkey,
    taker: &Pubkey,
    taker_ata_base: &Pubkey,
    taker_ata_quote: &Pubkey,
    base_token_program: &Pubkey,
    quote_token_program: &Pubkey,
    amount_in: u64,
    min_amount_out: u64,
    side: u8,
) -> (r: Instruction)
    requires
        side <= 1,
        global_config_search(*program_id) is Some,
        vault_search(*program_id, *mm, *base_mint) is Some,
        vault_search(*program_id, *mm, *quote_mint) is Some,
    ensures
        r.program_id == *program_id,
        r.data@ == swap_ix_data(amount_in, min_amount_out, side),
        r.accounts@ == swap_ix_accounts(
            pubkey_of(found(global_config_search(*program_id))), *strategy, *mm, *quotes,
            pubkey_of(found(vault_search(*program_id, *mm, *base_mint))),
            pubkey_of(found(vault_search(*program_id, *mm, *quote_mint))),
            *base_mint, *quote_mint, *taker, *taker_ata_base, *taker_ata_quote,
            *base_token_program, *quote_token_program, side),
{
    let ix = quay_sdk::ix::swap(&program_id.0.into(), &strategy.0.into(), &mm.0.into(), &quotes.0.into(),
        &base_mint.0.into(), &quote_mint.0.into(), &taker.0.into(), &taker_ata_base.0.into(),
        &taker_ata_quote.0.into(), &base_token_program.0.into(), &quote_token_program.0.into(),
        amount_in, min_amount_out, side);
    let accounts = ix.accounts.iter().map(|m| AccountMeta { pubkey: Pubkey(m.pubkey.to_bytes()),
        is_signer: m.is_signer, is_writable: m.is_writable }).collect();
    Instruction { program_id: Pubkey(ix.program_id.to_bytes()), accounts, data: ix.data }
}

} // verus!
