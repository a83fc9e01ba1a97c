//! Program-derived addresses, as `solana_pubkey` finds them.

use vstd::prelude::*;

use crate::trading_venue::Pubkey;

verus! {

/// Names the result of the program-derived-address search over `seeds` under
/// `program_id`: the address and bump seed, or `None` when no bump yields an
/// address off the curve or the seeds are out of bounds.
pub uninterp spec fn program_address(seeds: Seq<Seq<u8>>, program_id: Seq<u8>) -> Option<(Seq<u8>, u8)>;

/// The views of a list of seed slices.
pub open spec fn seed_views(seeds: Seq<&[u8]>) -> Seq<Seq<u8>> {
    seeds.map_values(|s: &[u8]| s@)
}

/// Trusted: wraps `solana_pubkey::Pubkey::try_find_program_address`. Claims only
/// that the result is the named search result for these seeds and program id
/// (a function of the two alone); what the search computes is not stated.
#[verifier::external_body]
pub(crate) fn try_find_program_address(seeds: &[&[u8]], program_id: &Pubkey) -> (r: Option<(Pubkey, u8)>)
    ensures
        r is None <==> program_address(seed_views(seeds@), program_id.0@) is None,
        r matches Some((key, bump)) ==> program_address(seed_views(seeds@), program_id.0@) == Some((key.0@, bump)),
{
    let program = solana_pubkey::Pubkey::new_from_array(program_id.0);
    match solana_pubkey::Pubkey::try_find_program_address(seeds, &program) {
        Some((key, bump)) => Some((Pubkey(key.to_bytes()), bump)),
        None => None,
    }
}

} // verus!

verus! {

/// The associated-token-account search for `wallet`, `mint` and `token_program`:
/// seeds `[wallet, token_program, mint]` under the Associated Token Account program.
pub open spec fn associated_token_address_spec(wallet: Pubkey, mint: Pubkey, token_program: Pubkey) -> Option<(Seq<u8>, u8)> {
    program_address(seq![wallet.0@, token_program.0@, mint.0@], crate::programs::associated_token_program().0@)
}

/// The associated token account of `wallet` for `mint` under `token_program`;
/// `None` where the address search fails.
pub fn get_associated_token_address_with_program_id(wallet: &Pubkey, mint: &Pubkey, token_program: &Pubkey) -> (r: Option<Pubkey>)
    ensures
        r is None <==> associated_token_address_spec(*wallet, *mint, *token_program) is None,
        r matches Some(k) ==> k.0@ == associated_token_address_spec(*wallet, *mint, *token_program).unwrap().0,
{
    let seeds: [&[u8]; 3] = [&wallet.0, &token_program.0, &mint.0];
    let found = try_find_program_address(&seeds, &crate::programs::associated_token_program());
    assert(seed_views(seeds@) =~= seq![wallet.0@, token_program.0@, mint.0@]);
    match found {
        Some((key, _)) => Some(key),
        None => None,
    }
}

/// The associated token account of `wallet` for an SPL Token `mint`.
pub fn get_associated_token_address(wallet: &Pubkey, mint: &Pubkey) -> (r: Option<Pubkey>)
    ensures
        r is None <==> associated_token_address_spec(*wallet, *mint, crate::programs::spl_token_program()) is None,
        r matches Some(k) ==> k.0@ == associated_token_address_spec(*wallet, *mint, crate::programs::spl_token_program()).unwrap().0,
{
    get_associated_token_address_with_program_id(wallet, mint, &crate::programs::spl_token_program())
}

} // verus!
