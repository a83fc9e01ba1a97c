//! Token metadata read from a mint account, as `spl_token_2022_interface`
//! unpacks it.

use spl_token_2022_interface::extension::transfer_fee::TransferFeeConfig;
use spl_token_2022_interface::extension::{BaseStateWithExtensions, StateWithExtensions};
use spl_token_2022_interface::state::Mint;
use vstd::prelude::*;

use crate::programs::{spl_token_program, token_2022_program};
use crate::trading_venue::{Account, ErrorInfo, Pubkey, TokenInfo, TradingVenueError};

verus! {

/// Names what mint account data holds when read as a Token-2022 mint (whose
/// layout extends the SPL Token one): the decimals, and the transfer fee in
/// force at `epoch` as `(basis points, maximum fee)` where the mint carries a
/// transfer-fee extension; `None` where the data does not unpack as an
/// initialized mint.
pub uninterp spec fn mint_state(data: Seq<u8>, epoch: u64) -> Option<(u8, Option<(u16, u64)>)>;

/// Trusted: wraps `StateWithExtensions::<Mint>::unpack` of
/// `spl_token_2022_interface`, then its `get_extension::<TransferFeeConfig>`
/// and `TransferFeeConfig::get_epoch_fee`. Claims only that the result is the
/// named mint reading of the data at `epoch`, a function of the two alone.
#[verifier::external_body]
pub(crate) fn unpack_mint(data: &[u8], epoch: u64) -> (r: Option<(u8, Option<(u16, u64)>)>)
    ensures
        r == mint_state(data@, epoch),
{
    let state = StateWithExtensions::<Mint>::unpack(data).ok()?;
    let fee = match state.get_extension::<TransferFeeConfig>() {
        Ok(config) => {
            let f = config.get_epoch_fee(epoch);
            Some((u16::from(f.transfer_fee_basis_points), u64::from(f.maximum_fee)))
        },
        Err(_) => None,
    };
    Some((state.base.decimals, fee))
}

/// The metadata of `mint` from its account's owner and unpacked data: a mint
/// owned by Token-2022 is a Token-2022 mint, and a transfer-fee extension
/// gives the fee rate and cap.
pub open spec fn token_info_from_mint(mint: Pubkey, owner: Pubkey, state: (u8, Option<(u16, u64)>)) -> TokenInfo {
    TokenInfo {
        pubkey: mint,
        decimals: state.0 as i32,
        is_token_2022: owner == token_2022_program(),
        transfer_fee: match state.1 {
            Some(fee) => Some(fee.0),
            None => None,
        },
        maximum_fee: match state.1 {
            Some(fee) => Some(fee.1),
            None => None,
        },
    }
}

/// The token program that owns a mint.
pub open spec fn token_program_of(t: TokenInfo) -> Pubkey {
    if t.is_token_2022 { token_2022_program() } else { spl_token_program() }
}

impl TokenInfo {
    /// The metadata of `mint` read from its account, with the transfer fee in
    /// force at `epoch`. Fails where the data is not an initialized mint.
    pub fn new(mint: &Pubkey, account: &Account, epoch: u64) -> (r: Result<TokenInfo, TradingVenueError>)
        ensures
            r is Ok <==> mint_state(account.data@, epoch) is Some,
            r matches Ok(t) ==> t == token_info_from_mint(*mint, account.owner, mint_state(account.data@, epoch)->0),
            r is Err ==> r == Err::<TokenInfo, _>(TradingVenueError::DeserializationFailed(ErrorInfo::Pubkey(*mint))),
    {
        let state = match unpack_mint(account.data.as_slice(), epoch) {
            Some(s) => s,
            None => return Err(TradingVenueError::DeserializationFailed(ErrorInfo::Pubkey(*mint))),
        };
        let (decimals, fee) = state;
        let (transfer_fee, maximum_fee) = match fee {
            Some((bps, max)) => (Some(bps), Some(max)),
            None => (None, None),
        };
        Ok(TokenInfo {
            pubkey: *mint,
            decimals: decimals as i32,
            is_token_2022: account.owner == token_2022_program(),
            transfer_fee,
            maximum_fee,
        })
    }

    /// The token program that owns this mint: Token-2022 or SPL Token.
    pub fn get_token_program(&self) -> (r: Pubkey)
        ensures
            r == token_program_of(*self),
    {
        if self.is_token_2022 { token_2022_program() } else { spl_token_program() }
    }
}

} // verus!
