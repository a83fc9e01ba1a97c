//! Anchor instruction data of the Tax Program and the Conversion Vault.
//!
//! An Anchor discriminator is the first 8 bytes of `sha256("global:<name>")`.

use vstd::prelude::*;

use vstd::string::StringSliceAdditionalSpecFns;

use crate::hashing::{sha256, sha256_digest};
use crate::le_bytes::{push_u64_le, u64_le};

verus! {

/// The bytes of `"global:"`, the namespace of Anchor instruction discriminators.
pub const GLOBAL_NAMESPACE: [u8; 7] = [103, 108, 111, 98, 97, 108, 58];

/// Tax Program instruction that buys a token with SOL.
pub const SWAP_SOL_BUY: &'static str = "swap_sol_buy";

/// Tax Program instruction that sells a token for SOL.
pub const SWAP_SOL_SELL: &'static str = "swap_sol_sell";

/// Conversion Vault instruction that converts between tokens.
pub const CONVERT_V2: &'static str = "convert_v2";

/// The discriminator of the Anchor instruction whose name has the given bytes.
pub open spec fn anchor_discriminator_spec(name: Seq<u8>) -> Seq<u8> {
    sha256_digest(GLOBAL_NAMESPACE@ + name).take(8)
}

/// The byte a `bool` argument is serialized as.
pub open spec fn bool_byte(b: bool) -> u8 {
    if b {
        1
    } else {
        0
    }
}

/// `[discriminator][amount_in u64 LE][minimum_amount_out u64 LE][is_crime u8]`.
pub open spec fn swap_data_spec(name: Seq<u8>, amount_in: u64, minimum_amount_out: u64, is_crime: bool) -> Seq<u8> {
    anchor_discriminator_spec(name) + u64_le(amount_in) + u64_le(minimum_amount_out) + seq![bool_byte(is_crime)]
}

/// Compute an Anchor instruction discriminator: `sha256("global:<name>")[0..8]`.
pub fn anchor_discriminator(name: &str) -> (r: [u8; 8])
    ensures
        r@ == anchor_discriminator_spec(name.spec_bytes()),
{
    let name_bytes = name.as_bytes();
    let mut preimage: Vec<u8> = Vec::new();
    let mut i: usize = 0;
    while i < 7
        invariant
            0 <= i <= 7,
            preimage@ == GLOBAL_NAMESPACE@.take(i as int),
        decreases 7 - i,
    {
        preimage.push(GLOBAL_NAMESPACE[i]);
        i = i + 1;
        assert(preimage@ =~= GLOBAL_NAMESPACE@.take(i as int));
    }
    let mut j: usize = 0;
    while j < name_bytes.len()
        invariant
            0 <= j <= name_bytes@.len(),
            preimage@ == GLOBAL_NAMESPACE@ + name_bytes@.take(j as int),
        decreases name_bytes@.len() - j,
    {
        preimage.push(name_bytes[j]);
        j = j + 1;
        assert(preimage@ =~= GLOBAL_NAMESPACE@ + name_bytes@.take(j as int));
    }
    assert(name_bytes@.take(name_bytes@.len() as int) =~= name_bytes@);
    let hash = sha256(preimage.as_slice());
    let mut disc = [0u8; 8];
    let mut k: usize = 0;
    while k < 8
        invariant
            0 <= k <= 8,
            hash@ == sha256_digest(preimage@),
            forall|m: int| 0 <= m < k ==> disc@[m] == hash@[m],
        decreases 8 - k,
    {
        disc[k] = hash[k];
        k = k + 1;
    }
    assert(disc@ =~= hash@.take(8));
    disc
}

/// Copy an 8-byte discriminator into a fresh vector.
fn start_with(disc: &[u8; 8], capacity: usize) -> (r: Vec<u8>)
    ensures
        r@ == disc@,
{
    let mut data = Vec::with_capacity(capacity);
    let mut i: usize = 0;
    while i < 8
        invariant
            0 <= i <= 8,
            data@ == disc@.take(i as int),
        decreases 8 - i,
    {
        data.push(disc[i]);
        i = i + 1;
        assert(data@ =~= disc@.take(i as int));
    }
    assert(disc@.take(8) =~= disc@);
    data
}

/// Instruction data of the Tax Program's `swap_sol_buy`:
/// `[8-byte discriminator][u64 amount_in LE][u64 minimum_amount_out LE][bool is_crime]`.
pub fn build_swap_buy_data(amount_in: u64, minimum_amount_out: u64, is_crime: bool) -> (r: Vec<u8>)
    ensures
        r@ == swap_data_spec(SWAP_SOL_BUY.spec_bytes(), amount_in, minimum_amount_out, is_crime),
        r@.len() == 25,
{
    let disc = anchor_discriminator(SWAP_SOL_BUY);
    let mut data = start_with(&disc, 25);
    push_u64_le(&mut data, amount_in);
    push_u64_le(&mut data, minimum_amount_out);
    data.push(if is_crime { 1 } else { 0 });
    proof {
        crate::le_bytes::lemma_u64_le_roundtrip(amount_in);
        crate::le_bytes::lemma_u64_le_roundtrip(minimum_amount_out);
    }
    data
}

/// Instruction data of the Tax Program's `swap_sol_sell`:
/// `[8-byte discriminator][u64 amount_in LE][u64 minimum_amount_out LE][bool is_crime]`.
pub fn build_swap_sell_data(amount_in: u64, minimum_amount_out: u64, is_crime: bool) -> (r: Vec<u8>)
    ensures
        r@ == swap_data_spec(SWAP_SOL_SELL.spec_bytes(), amount_in, minimum_amount_out, is_crime),
        r@.len() == 25,
{
    let disc = anchor_discriminator(SWAP_SOL_SELL);
    let mut data = start_with(&disc, 25);
    push_u64_le(&mut data, amount_in);
    push_u64_le(&mut data, minimum_amount_out);
    data.push(if is_crime { 1 } else { 0 });
    proof {
        crate::le_bytes::lemma_u64_le_roundtrip(amount_in);
        crate::le_bytes::lemma_u64_le_roundtrip(minimum_amount_out);
    }
    data
}

/// Instruction data of the Conversion Vault's `convert_v2`:
/// `[8-byte discriminator][u64 amount_in LE]`.
pub fn build_convert_data(amount_in: u64) -> (r: Vec<u8>)
    ensures
        r@ == anchor_discriminator_spec(CONVERT_V2.spec_bytes()) + u64_le(amount_in),
        r@.len() == 16,
{
    let disc = anchor_discriminator(CONVERT_V2);
    let mut data = start_with(&disc, 16);
    push_u64_le(&mut data, amount_in);
    proof {
        crate::le_bytes::lemma_u64_le_roundtrip(amount_in);
    }
    data
}

} // verus!
