//! The Quay venue: one Quay Strategy (one pricing curve on one
//! `(base_mint, quote_mint)` pair) exposed as a Titan trading venue.
//!
//! `update_state` decodes the Strategy, MarketMaker, Quotes and GlobalConfig
//! accounts, the two mints and the `Clock` sysvar; `quote` re-runs the
//! program's swap simulator on the cached account data and derives the
//! marginal price by a finite difference.

pub mod sdk;
pub mod venue;

pub use self::venue::QuayVenue;

use vstd::prelude::*;

use crate::le_bytes::{le_value, lemma_u64_le_roundtrip, read_u64_le, u64_le};
use crate::pda::{try_find_program_address, seed_views};
use crate::trading_venue::{ParsedInstruction, PoolCreation, PoolProtocol, Pubkey};
use self::sdk::{found, global_config_search, market_maker_search, vault_search, SEED_GLOBAL, SEED_MM, SEED_VAULT};

verus! {

/// `QUayE6nexQWYNZAEqfN8FxoNwQDSu3CAzT2qq9J1ArG`, Quay's mainnet program.
pub const QUAY_PROGRAM_ID_BYTES: [u8; 32] = [
    6, 3, 140, 194, 13, 11, 173, 179, 225, 65, 181, 89, 221, 52, 130, 120,
    53, 35, 240, 157, 132, 75, 215, 51, 58, 201, 32, 248, 208, 22, 49, 125,
];

/// Quay's mainnet program id. A venue built from a Strategy account takes its
/// program id from the account's owner instead.
#[verifier::allow_in_spec]
pub fn quay_program_id() -> Pubkey
    returns
        Pubkey(QUAY_PROGRAM_ID_BYTES),
{
    Pubkey(QUAY_PROGRAM_ID_BYTES)
}

/// The loaded-accounts data size limit to set on every swap transaction
/// against Quay: the tier that also covers a market mixing SPL Token and
/// Token-2022 mints (2 MiB).
pub const RECOMMENDED_LOADED_ACCOUNTS_DATA_SIZE_LIMIT: u32 = 2_097_152;

/// Accounts of a `swap` instruction on a single-token-program market: eleven
/// positional accounts, the Instructions sysvar and one token program.
pub const SWAP_ACCOUNTS_LEN: usize = 13;

/// Leading data byte of the `init_strategy` instruction.
pub const INIT_STRATEGY_DISCRIMINATOR: u8 = 0x10;

/// The Titan bit of a Strategy's routing flags.
pub const ROUTE_TITAN: u8 = 0x01;

/// Side byte of a swap that sells base for quote.
pub const SIDE_SELL_BASE: u8 = 0;

/// Side byte of a swap that buys base with quote.
pub const SIDE_BUY_BASE: u8 = 1;

/// Offset of `slot` (u64) in the `Clock` sysvar.
pub const CLOCK_SLOT_OFFSET: usize = 0;

/// Offset of `unix_timestamp` (i64) in the `Clock` sysvar.
pub const CLOCK_UNIX_TS_OFFSET: usize = 32;

/// Bytes of the `Clock` sysvar the venue reads.
pub const CLOCK_MIN_LEN: usize = 40;

/// `(slot, unix_timestamp)` of `Clock` sysvar data, or `None` when shorter than 40 bytes.
pub open spec fn clock_spec(data: Seq<u8>) -> Option<(u64, i64)> {
    if data.len() < CLOCK_MIN_LEN {
        None
    } else {
        Some((le_value(data.subrange(0, 8)) as u64, le_value(data.subrange(32, 40)) as u64 as i64))
    }
}

/// Decode `(slot, unix_timestamp)` from `Clock` sysvar data: `slot` is the
/// little-endian u64 at 0..8, `unix_timestamp` the little-endian i64 at 32..40;
/// bytes past 40 are ignored.
pub fn decode_clock(data: &[u8]) -> (r: Option<(u64, i64)>)
    ensures
        r == clock_spec(data@),
{
    if data.len() < CLOCK_MIN_LEN {
        return None;
    }
    let slot = read_u64_le(data, CLOCK_SLOT_OFFSET);
    let ts = read_u64_le(data, CLOCK_UNIX_TS_OFFSET);
    Some((slot, ts as i64))
}

/// Decoding `Clock` data whose slot and unix timestamp were written
/// little-endian at their offsets gives them back.
pub proof fn lemma_decode_clock_roundtrip(data: Seq<u8>, slot: u64, unix_timestamp: i64)
    requires
        data.len() >= CLOCK_MIN_LEN,
        data.subrange(0, 8) == u64_le(slot),
        data.subrange(32, 40) == u64_le(unix_timestamp as u64),
    ensures
        clock_spec(data) == Some((slot, unix_timestamp)),
{
    lemma_u64_le_roundtrip(slot);
    lemma_u64_le_roundtrip(unix_timestamp as u64);
    assert(((unix_timestamp as u64) as i64) == unix_timestamp) by (bit_vector);
}

/// The GlobalConfig address of a Quay deployment.
pub fn global_config_address(program_id: &Pubkey) -> (r: Option<Pubkey>)
    ensures
        r is None <==> global_config_search(*program_id) is None,
        r matches Some(k) ==> k.0@ == found(global_config_search(*program_id)),
{
    let seeds: [&[u8]; 1] = [&SEED_GLOBAL];
    let res = try_find_program_address(&seeds, program_id);
    assert(seed_views(seeds@) =~= seq![SEED_GLOBAL@]);
    match res {
        Some((k, _)) => Some(k),
        None => None,
    }
}

/// The MarketMaker address of `owner`.
pub fn market_maker_address(program_id: &Pubkey, owner: &Pubkey) -> (r: Option<Pubkey>)
    ensures
        r is None <==> market_maker_search(*program_id, *owner) is None,
        r matches Some(k) ==> k.0@ == found(market_maker_search(*program_id, *owner)),
{
    let seeds: [&[u8]; 2] = [&SEED_MM, &owner.0];
    let res = try_find_program_address(&seeds, program_id);
    assert(seed_views(seeds@) =~= seq![SEED_MM@, owner.0@]);
    match res {
        Some((k, _)) => Some(k),
        None => None,
    }
}

/// The vault token account of `market_maker` for `mint`.
pub fn vault_address(program_id: &Pubkey, market_maker: &Pubkey, mint: &Pubkey) -> (r: Option<Pubkey>)
    ensures
        r is None <==> vault_search(*program_id, *market_maker, *mint) is None,
        r matches Some(k) ==> k.0@ == found(vault_search(*program_id, *market_maker, *mint)),
{
    let seeds: [&[u8]; 3] = [&SEED_VAULT, &market_maker.0, &mint.0];
    let res = try_find_program_address(&seeds, program_id);
    assert(seed_views(seeds@) =~= seq![SEED_VAULT@, market_maker.0@, mint.0@]);
    match res {
        Some((k, _)) => Some(k),
        None => None,
    }
}

/// An `init_strategy` instruction of Quay's mainnet program with at least the
/// seven accounts `[strategy, mm, cfg, owner, system, base_mint, quote_mint]`.
pub open spec fn is_strategy_creation(ix: ParsedInstruction) -> bool {
    &&& ix.program_id == quay_program_id()
    &&& ix.data@.len() > 0
    &&& ix.data@[0] == INIT_STRATEGY_DISCRIMINATOR
    &&& ix.accounts@.len() > 6
}

/// `(strategy, base_mint, quote_mint)` of each strategy creation, in order.
pub open spec fn strategy_creations(ixs: Seq<ParsedInstruction>) -> Seq<(Pubkey, Pubkey, Pubkey)>
    decreases ixs.len(),
{
    if ixs.len() == 0 {
        Seq::empty()
    } else {
        let rest = strategy_creations(ixs.drop_last());
        let ix = ixs.last();
        if is_strategy_creation(ix) {
            rest.push((ix.accounts@[0], ix.accounts@[5], ix.accounts@[6]))
        } else {
            rest
        }
    }
}

/// The Quay strategies created by a confirmed transaction's instructions: one
/// pool per `init_strategy` of Quay's mainnet program, the Strategy account
/// (account 0) with its base and quote mints (accounts 5 and 6). Instructions
/// of other programs, other Quay instructions and `init_strategy` instructions
/// with fewer than seven accounts are skipped.
pub fn parse_pool_creations(instructions: &[ParsedInstruction]) -> (r: Vec<PoolCreation>)
    ensures
        r@.len() == strategy_creations(instructions@).len(),
        forall|i: int| #![trigger r@[i]] 0 <= i < r@.len() ==> {
            &&& r@[i].protocol == PoolProtocol::Quay
            &&& r@[i].pool == strategy_creations(instructions@)[i].0
            &&& r@[i].mints@ == seq![strategy_creations(instructions@)[i].1, strategy_creations(instructions@)[i].2]
        },
{
    let mut out: Vec<PoolCreation> = Vec::new();
    let mut i: usize = 0;
    while i < instructions.len()
        invariant
            0 <= i <= instructions@.len(),
            out@.len() == strategy_creations(instructions@.take(i as int)).len(),
            forall|j: int| #![trigger out@[j]] 0 <= j < out@.len() ==> {
                &&& out@[j].protocol == PoolProtocol::Quay
                &&& out@[j].pool == strategy_creations(instructions@.take(i as int))[j].0
                &&& out@[j].mints@ == seq![strategy_creations(instructions@.take(i as int))[j].1, strategy_creations(instructions@.take(i as int))[j].2]
            },
        decreases instructions@.len() - i,
    {
        let ix = &instructions[i];
        let ghost prefix = instructions@.take(i as int);
        let ghost next = instructions@.take(i + 1);
        assert(next.drop_last() =~= prefix);
        assert(next.last() == instructions@[i as int]);
        if ix.program_id == quay_program_id() && ix.data.len() > 0 && ix.data[0] == INIT_STRATEGY_DISCRIMINATOR
            && ix.accounts.len() > 6 {
            let mut mints: Vec<Pubkey> = Vec::new();
            mints.push(ix.accounts[5]);
            mints.push(ix.accounts[6]);
            assert(mints@ =~= seq![ix.accounts@[5], ix.accounts@[6]]);
            out.push(PoolCreation { protocol: PoolProtocol::Quay, pool: ix.accounts[0], mints });
        }
        i = i + 1;
    }
    assert(instructions@.take(i as int) =~= instructions@);
    out
}

/// Appending an instruction to a transaction adds a pool creation exactly when
/// it is Quay's `init_strategy` (Quay's program, data starting with `0x10`)
/// with at least seven accounts, whatever accounts follow the seventh: the
/// pool is account 0 and the mints are accounts 5 and 6. Any other
/// instruction adds nothing.
pub proof fn lemma_strategy_creation_appends(ixs: Seq<ParsedInstruction>, ix: ParsedInstruction)
    ensures
        (ix.program_id == quay_program_id() && ix.data@.len() >= 1 && ix.data@[0] == 0x10u8 && ix.accounts@.len() >= 7)
            ==> strategy_creations(ixs.push(ix)) == strategy_creations(ixs).push((ix.accounts@[0], ix.accounts@[5], ix.accounts@[6])),
        !(ix.program_id == quay_program_id() && ix.data@.len() >= 1 && ix.data@[0] == 0x10u8 && ix.accounts@.len() >= 7)
            ==> strategy_creations(ixs.push(ix)) == strategy_creations(ixs),
{
    assert(ixs.push(ix).drop_last() =~= ixs);
    assert(ixs.push(ix).last() == ix);
}

} // verus!
