//! The Conversion Vault venues: fixed-rate, fee-free conversions
//! CRIME -> PROFIT and FRAUD -> PROFIT (divide by 100), PROFIT -> CRIME and
//! PROFIT -> FRAUD (multiply by 100). Each venue converts in one direction.

use vstd::prelude::*;
use vstd::string::StringExecFns;

use crate::drfraudsworth::accounts::addresses::{
    conversion_vault_program_id, crime_mint, crime_sol_pool, fraud_mint, fraud_sol_pool,
    profit_mint, protocol_alt, token_2022_program_id, transfer_hook_program_id, vault_config_pda,
};
use crate::drfraudsworth::accounts::hook_accounts::{hook_count, hook_metas_spec};
use crate::drfraudsworth::accounts::vault_accounts::{build_vault_account_metas, vault_named_metas, vault_token_account_spec};
use crate::drfraudsworth::instruction_data::{anchor_discriminator_spec, build_convert_data, CONVERT_V2};
use crate::drfraudsworth::math::vault_math::{compute_vault_output, vault_output_spec};
use crate::drfraudsworth::sol_pool_venue::{pool_token_info, SolPoolModel, SolPoolVenue};
use crate::drfraudsworth::token_info_builder::{token_info_for_mint, token_info_spec};
use crate::drfraudsworth::constants::LP_FEE_BPS;
use crate::le_bytes::u64_le;
use crate::pda::{associated_token_address_spec, program_address, seed_views, try_find_program_address};
use crate::trading_venue::{
    lemma_pubkey_of, pubkey_of, Account, ErrorInfo, Instruction, PoolProtocol, Pubkey, QuoteRequest, QuoteResult, SwapType,
    TokenInfo, TradingVenueError,
};

verus! {

/// A Titan venue for one direction of the Conversion Vault.
#[derive(Clone)]
pub struct VaultVenue {
    input_mint: Pubkey,
    output_mint: Pubkey,
    token_info: Vec<TokenInfo>,
    initialized: bool,
}

/// The state of a vault venue.
pub struct VaultModel {
    pub input_mint: Pubkey,
    pub output_mint: Pubkey,
    pub token_info: Seq<TokenInfo>,
    pub initialized: bool,
}

impl View for VaultVenue {
    type V = VaultModel;

    closed spec fn view(&self) -> VaultModel {
        VaultModel {
            input_mint: self.input_mint,
            output_mint: self.output_mint,
            token_info: self.token_info@,
            initialized: self.initialized,
        }
    }
}

/// `[input, output]` metadata of a vault direction.
pub open spec fn pair_token_info(input_mint: Pubkey, output_mint: Pubkey) -> Seq<TokenInfo> {
    seq![token_info_spec(input_mint)->0, token_info_spec(output_mint)->0]
}

/// The bytes of `"titan_vault"`, the seed prefix of a vault direction's market id.
pub const TITAN_VAULT_SEED: [u8; 11] = [116, 105, 116, 97, 110, 95, 118, 97, 117, 108, 116];

/// The market-id search of a vault direction: seeds `["titan_vault", input, output]`
/// under the Conversion Vault program.
pub open spec fn vault_market_id_spec(input_mint: Pubkey, output_mint: Pubkey) -> Option<(Seq<u8>, u8)> {
    program_address(seq![TITAN_VAULT_SEED@, input_mint.0@, output_mint.0@], conversion_vault_program_id().0@)
}

/// The quote a vault direction gives: ExactOut is refused; a zero amount quotes
/// zero; the input must be the venue's input mint; the output follows the
/// vault's conversion rule and is never short of liquidity.
pub open spec fn vault_quote_spec(m: VaultModel, request: QuoteRequest) -> Result<QuoteResult, TradingVenueError> {
    if request.swap_type == SwapType::ExactOut {
        Err(TradingVenueError::ExactOutNotSupported)
    } else if request.amount == 0 {
        Ok(QuoteResult {
            input_mint: m.input_mint,
            output_mint: m.output_mint,
            amount: 0,
            expected_output: 0,
            not_enough_liquidity: false,
            price: None,
        })
    } else if request.input_mint != m.input_mint {
        Err(TradingVenueError::InvalidMint(ErrorInfo::Pubkey(request.input_mint)))
    } else {
        match vault_output_spec(m.input_mint, m.output_mint, request.amount) {
            None => Err(TradingVenueError::CheckedMathError(ErrorInfo::StaticStr(
                "Vault conversion failed (dust too small, overflow, or invalid pair)",
            ))),
            Some(out) => Ok(QuoteResult {
                input_mint: m.input_mint,
                output_mint: m.output_mint,
                amount: request.amount,
                expected_output: out,
                not_enough_liquidity: false,
                price: None,
            }),
        }
    }
}

/// The display name of a protocol mint.
pub open spec fn mint_name_spec(mint: Pubkey) -> Seq<char> {
    if mint == crime_mint() {
        "CRIME"@
    } else if mint == fraud_mint() {
        "FRAUD"@
    } else if mint == profit_mint() {
        "PROFIT"@
    } else {
        "UNKNOWN"@
    }
}

fn mint_name(mint: &Pubkey) -> (r: &'static str)
    ensures
        r@ == mint_name_spec(*mint),
{
    if *mint == crime_mint() {
        "CRIME"
    } else if *mint == fraud_mint() {
        "FRAUD"
    } else if *mint == profit_mint() {
        "PROFIT"
    } else {
        "UNKNOWN"
    }
}

/// `"<input>/<output>"`.
fn format_pair(input: &Pubkey, output: &Pubkey) -> (r: String)
    ensures
        r@ == mint_name_spec(*input) + "/"@ + mint_name_spec(*output),
{
    let mut s = String::from_str(mint_name(input));
    s.append("/");
    s.append(mint_name(output));
    s
}

impl VaultVenue {
    /// A venue for the direction `input_mint -> output_mint`, ready to quote.
    pub fn new_for_testing(input_mint: Pubkey, output_mint: Pubkey) -> (r: Self)
        requires
            token_info_spec(input_mint) is Some,
            token_info_spec(output_mint) is Some,
        ensures
            r@ == (VaultModel {
                input_mint,
                output_mint,
                token_info: pair_token_info(input_mint, output_mint),
                initialized: true,
            }),
    {
        VaultVenue { input_mint, output_mint, token_info: Self::pair_tokens(&input_mint, &output_mint), initialized: true }
    }

    fn pair_tokens(input_mint: &Pubkey, output_mint: &Pubkey) -> (r: Vec<TokenInfo>)
        requires
            token_info_spec(*input_mint) is Some,
            token_info_spec(*output_mint) is Some,
        ensures
            r@ == pair_token_info(*input_mint, *output_mint),
    {
        let mut v = Vec::new();
        v.push(token_info_for_mint(input_mint).unwrap());
        v.push(token_info_for_mint(output_mint).unwrap());
        assert(v@ =~= pair_token_info(*input_mint, *output_mint));
        v
    }

    /// Vault venues come from `known_vault_venues`, never from an account.
    pub fn from_account(_pubkey: &Pubkey, _account: &Account) -> (r: Result<Self, TradingVenueError>)
        ensures
            r matches Err(e) && e is UnsupportedVenue,
    {
        Err(TradingVenueError::UnsupportedVenue(ErrorInfo::StaticStr(
            "Use known_vault_venues() to construct VaultVenue instances",
        )))
    }

    /// Whether the vault configuration has been seen.
    pub fn initialized(&self) -> (r: bool)
        ensures
            r == self@.initialized,
    {
        self.initialized
    }

    /// The Conversion Vault program.
    pub fn program_id(&self) -> (r: Pubkey)
        ensures
            r == conversion_vault_program_id(),
    {
        conversion_vault_program_id()
    }

    /// The programs a conversion also invokes: the Transfer Hook and Token-2022.
    pub fn program_dependencies(&self) -> (r: Vec<Pubkey>)
        ensures
            r@ == seq![transfer_hook_program_id(), token_2022_program_id()],
    {
        let mut v = Vec::new();
        v.push(transfer_hook_program_id());
        v.push(token_2022_program_id());
        assert(v@ =~= seq![transfer_hook_program_id(), token_2022_program_id()]);
        v
    }

    /// A synthetic market id derived from the mint pair; `None` where the
    /// address search finds no address.
    pub fn market_id(&self) -> (r: Option<Pubkey>)
        ensures
            r is None <==> vault_market_id_spec(self@.input_mint, self@.output_mint) is None,
            r matches Some(k) ==> k.0@ == vault_market_id_spec(self@.input_mint, self@.output_mint).unwrap().0,
    {
        let seeds: [&[u8]; 3] = [&TITAN_VAULT_SEED, &self.input_mint.0, &self.output_mint.0];
        let found = try_find_program_address(&seeds, &conversion_vault_program_id());
        assert(seed_views(seeds@) =~= seq![TITAN_VAULT_SEED@, self.input_mint.0@, self.output_mint.0@]);
        match found {
            Some((key, _)) => Some(key),
            None => None,
        }
    }

    /// `[input, output]`.
    pub fn tradable_mints(&self) -> (r: Result<Vec<Pubkey>, TradingVenueError>)
        ensures
            r matches Ok(v) && v@ == seq![self@.input_mint, self@.output_mint],
    {
        let mut v = Vec::new();
        v.push(self.input_mint);
        v.push(self.output_mint);
        assert(v@ =~= seq![self@.input_mint, self@.output_mint]);
        Ok(v)
    }

    /// The decimals of each token, in token order.
    pub fn decimals(&self) -> (r: Result<Vec<i32>, TradingVenueError>)
        ensures
            r matches Ok(v) && v@ == self@.token_info.map_values(|t: TokenInfo| t.decimals),
    {
        let mut v: Vec<i32> = Vec::new();
        let mut i: usize = 0;
        while i < self.token_info.len()
            invariant
                0 <= i <= self.token_info@.len(),
                v@ == self.token_info@.take(i as int).map_values(|t: TokenInfo| t.decimals),
            decreases self.token_info@.len() - i,
        {
            v.push(self.token_info[i].decimals);
            i = i + 1;
            assert(v@ =~= self.token_info@.take(i as int).map_values(|t: TokenInfo| t.decimals));
        }
        assert(self.token_info@.take(i as int) =~= self.token_info@);
        Ok(v)
    }

    /// The token metadata, `[input, output]`.
    pub fn get_token_info(&self) -> (r: &[TokenInfo])
        ensures
            r@ == self@.token_info,
    {
        self.token_info.as_slice()
    }

    /// The metadata of token `i`.
    pub fn get_token(&self, i: usize) -> (r: Result<&TokenInfo, TradingVenueError>)
        ensures
            i < self@.token_info.len() ==> (r matches Ok(t) && *t == self@.token_info[i as int]),
            i >= self@.token_info.len() ==> r == Err::<&TokenInfo, _>(TradingVenueError::TokenInfoIndexError(i)),
    {
        if i < self.token_info.len() {
            Ok(&self.token_info[i])
        } else {
            Err(TradingVenueError::TokenInfoIndexError(i))
        }
    }

    pub fn protocol(&self) -> (r: PoolProtocol)
        ensures
            r == PoolProtocol::DrFraudsworth,
    {
        PoolProtocol::DrFraudsworth
    }

    /// `"Dr Fraudsworth <input>/<output> Vault"`.
    pub fn label(&self) -> (r: String)
        ensures
            r@ == "Dr Fraudsworth "@ + mint_name_spec(self@.input_mint) + "/"@ + mint_name_spec(self@.output_mint) + " Vault"@,
    {
        let mut s = String::from_str("Dr Fraudsworth ");
        let pair = format_pair(&self.input_mint, &self.output_mint);
        s.append(pair.as_str());
        s.append(" Vault");
        assert(s@ =~= "Dr Fraudsworth "@ + mint_name_spec(self@.input_mint) + "/"@ + mint_name_spec(self@.output_mint) + " Vault"@);
        s
    }

    /// The vault configuration account.
    pub fn get_required_pubkeys_for_update(&self) -> (r: Result<Vec<Pubkey>, TradingVenueError>)
        ensures
            r matches Ok(v) && v@ == seq![vault_config_pda()],
    {
        let mut v = Vec::new();
        v.push(vault_config_pda());
        assert(v@ =~= seq![vault_config_pda()]);
        Ok(v)
    }

    /// Check that the vault configuration account exists and holds data; the
    /// rate is fixed at 100:1, so nothing else loads.
    pub fn update_state(&mut self, vault_config: Option<&Account>) -> (r: Result<(), TradingVenueError>)
        ensures
            vault_config is None ==> r == Err::<(), _>(TradingVenueError::NoAccountFound(ErrorInfo::Pubkey(vault_config_pda()))),
            vault_config matches Some(a) && a.data@.len() == 0 ==> r == Err::<(), _>(TradingVenueError::MissingState(ErrorInfo::StaticStr("VaultConfig account has no data"))),
            r is Err ==> final(self)@ == old(self)@,
            r is Ok <==> (vault_config matches Some(a) && a.data@.len() > 0),
            r is Ok ==> final(self)@ == (VaultModel { initialized: true, ..old(self)@ }),
    {
        let account = match vault_config {
            Some(a) => a,
            None => return Err(TradingVenueError::NoAccountFound(ErrorInfo::Pubkey(vault_config_pda()))),
        };
        if account.data.len() == 0 {
            return Err(TradingVenueError::MissingState(ErrorInfo::StaticStr("VaultConfig account has no data")));
        }
        self.initialized = true;
        Ok(())
    }

    /// Quote a conversion of `request.amount` input tokens.
    pub fn quote(&self, request: QuoteRequest) -> (r: Result<QuoteResult, TradingVenueError>)
        ensures
            r == vault_quote_spec(self@, request),
    {
        match request.swap_type {
            SwapType::ExactOut => return Err(TradingVenueError::ExactOutNotSupported),
            SwapType::ExactIn => {},
        }
        if request.amount == 0 {
            return Ok(QuoteResult {
                input_mint: self.input_mint,
                output_mint: self.output_mint,
                amount: 0,
                expected_output: 0,
                not_enough_liquidity: false,
                price: None,
            });
        }
        if request.input_mint != self.input_mint {
            return Err(TradingVenueError::InvalidMint(ErrorInfo::Pubkey(request.input_mint)));
        }
        let out_amount = match compute_vault_output(&self.input_mint, &self.output_mint, request.amount) {
            Some(o) => o,
            None => return Err(TradingVenueError::CheckedMathError(ErrorInfo::StaticStr(
                "Vault conversion failed (dust too small, overflow, or invalid pair)",
            ))),
        };
        Ok(QuoteResult {
            input_mint: self.input_mint,
            output_mint: self.output_mint,
            amount: request.amount,
            expected_output: out_amount,
            not_enough_liquidity: false,
            price: None,
        })
    }

    /// Build the `convert_v2` instruction for `user`, whose token accounts are
    /// the Token-2022 associated accounts of the two mints: the nine named
    /// accounts, then the transfer-hook accounts of the input transfer (user to
    /// vault) and of the output transfer (vault to user).
    ///
    /// Fails exactly where an address derivation finds no address: a user
    /// token account, or a whitelist address of the hook accounts.
    pub fn generate_swap_instruction(&self, request: QuoteRequest, user: Pubkey) -> (r: Result<Instruction, TradingVenueError>)
        requires
            vault_token_account_spec(self@.input_mint) is Some,
            vault_token_account_spec(self@.output_mint) is Some,
        ensures
            ({
                let ai = associated_token_address_spec(user, self@.input_mint, token_2022_program_id());
                let ao = associated_token_address_spec(user, self@.output_mint, token_2022_program_id());
                let user_in = pubkey_of((ai->0).0);
                let user_out = pubkey_of((ao->0).0);
                let vault_in = vault_token_account_spec(self@.input_mint)->0;
                let vault_out = vault_token_account_spec(self@.output_mint)->0;
                &&& r is Err <==> (ai is None || ao is None
                    || hook_metas_spec(self@.input_mint, user_in, vault_in, None)
                    || hook_metas_spec(self@.output_mint, vault_out, user_out, None))
                &&& r is Err ==> r == Err::<Instruction, _>(TradingVenueError::AddressDerivationFailed(ErrorInfo::Pubkey(user)))
                &&& r matches Ok(ix) ==> {
                    let k = 9 + hook_count(self@.input_mint);
                    &&& ix.program_id == conversion_vault_program_id()
                    &&& ix.data@ == anchor_discriminator_spec(vstd::string::StringSliceAdditionalSpecFns::spec_bytes(CONVERT_V2)) + u64_le(request.amount)
                    &&& k <= ix.accounts@.len()
                    &&& ix.accounts@.subrange(0, 9) == vault_named_metas(user, user_in, user_out, self@.input_mint, self@.output_mint)
                    &&& hook_metas_spec(self@.input_mint, user_in, vault_in, Some(ix.accounts@.subrange(9, k)))
                    &&& hook_metas_spec(self@.output_mint, vault_out, user_out, Some(ix.accounts@.subrange(k, ix.accounts@.len() as int)))
                }
            }),
    {
        let user_input_ata = match crate::pda::get_associated_token_address_with_program_id(&user, &self.input_mint, &token_2022_program_id()) {
            Some(k) => k,
            None => return Err(TradingVenueError::AddressDerivationFailed(ErrorInfo::Pubkey(user))),
        };
        let user_output_ata = match crate::pda::get_associated_token_address_with_program_id(&user, &self.output_mint, &token_2022_program_id()) {
            Some(k) => k,
            None => return Err(TradingVenueError::AddressDerivationFailed(ErrorInfo::Pubkey(user))),
        };
        proof {
            lemma_pubkey_of(user_input_ata);
            lemma_pubkey_of(user_output_ata);
        }
        let account_metas = match build_vault_account_metas(&user, &user_input_ata, &user_output_ata, &self.input_mint, &self.output_mint) {
            Some(m) => m,
            None => return Err(TradingVenueError::AddressDerivationFailed(ErrorInfo::Pubkey(user))),
        };
        let data = build_convert_data(request.amount);
        Ok(Instruction { program_id: conversion_vault_program_id(), accounts: account_metas, data })
    }

    /// The protocol's address lookup table.
    pub fn get_lookup_table_keys(&self) -> (r: Result<Vec<Pubkey>, TradingVenueError>)
        ensures
            r matches Ok(v) && v@ == seq![protocol_alt()],
    {
        let mut v = Vec::new();
        v.push(protocol_alt());
        assert(v@ =~= seq![protocol_alt()]);
        Ok(v)
    }
}

/// The two SOL pool venues (CRIME/SOL, FRAUD/SOL), not yet loaded.
pub fn known_sol_pool_venues() -> (r: Vec<SolPoolVenue>)
    ensures
        r@.len() == 2,
        r@[0]@ == (SolPoolModel {
            pool_address: crime_sol_pool(), is_crime: true, reserve_sol: 0, reserve_token: 0,
            lp_fee_bps: LP_FEE_BPS, buy_tax_bps: 0, sell_tax_bps: 0,
            token_info: pool_token_info(crime_mint()), initialized: false,
        }),
        r@[1]@ == (SolPoolModel {
            pool_address: fraud_sol_pool(), is_crime: false, reserve_sol: 0, reserve_token: 0,
            lp_fee_bps: LP_FEE_BPS, buy_tax_bps: 0, sell_tax_bps: 0,
            token_info: pool_token_info(fraud_mint()), initialized: false,
        }),
{
    let mut v = Vec::new();
    v.push(SolPoolVenue::new_uninitialized(true, crime_sol_pool(), crime_mint()));
    v.push(SolPoolVenue::new_uninitialized(false, fraud_sol_pool(), fraud_mint()));
    v
}

/// The vault direction `input -> output`, not yet loaded.
pub open spec fn unloaded_vault(input_mint: Pubkey, output_mint: Pubkey) -> VaultModel {
    VaultModel { input_mint, output_mint, token_info: pair_token_info(input_mint, output_mint), initialized: false }
}

/// The four vault venues, one per direction, not yet loaded.
pub fn known_vault_venues() -> (r: Vec<VaultVenue>)
    ensures
        r@.len() == 4,
        r@[0]@ == unloaded_vault(crime_mint(), profit_mint()),
        r@[1]@ == unloaded_vault(fraud_mint(), profit_mint()),
        r@[2]@ == unloaded_vault(profit_mint(), crime_mint()),
        r@[3]@ == unloaded_vault(profit_mint(), fraud_mint()),
{
    let mut v = Vec::new();
    v.push(VaultVenue { input_mint: crime_mint(), output_mint: profit_mint(), token_info: VaultVenue::pair_tokens(&crime_mint(), &profit_mint()), initialized: false });
    v.push(VaultVenue { input_mint: fraud_mint(), output_mint: profit_mint(), token_info: VaultVenue::pair_tokens(&fraud_mint(), &profit_mint()), initialized: false });
    v.push(VaultVenue { input_mint: profit_mint(), output_mint: crime_mint(), token_info: VaultVenue::pair_tokens(&profit_mint(), &crime_mint()), initialized: false });
    v.push(VaultVenue { input_mint: profit_mint(), output_mint: fraud_mint(), token_info: VaultVenue::pair_tokens(&profit_mint(), &fraud_mint()), initialized: false });
    v
}

/// All six venues: the two SOL pools and the four vault directions.
pub fn all_venues() -> (r: (Vec<SolPoolVenue>, Vec<VaultVenue>))
    ensures
        r.0@.len() == 2,
        r.0@[0]@ == (SolPoolModel {
            pool_address: crime_sol_pool(), is_crime: true, reserve_sol: 0, reserve_token: 0,
            lp_fee_bps: LP_FEE_BPS, buy_tax_bps: 0, sell_tax_bps: 0,
            token_info: pool_token_info(crime_mint()), initialized: false,
        }),
        r.0@[1]@ == (SolPoolModel {
            pool_address: fraud_sol_pool(), is_crime: false, reserve_sol: 0, reserve_token: 0,
            lp_fee_bps: LP_FEE_BPS, buy_tax_bps: 0, sell_tax_bps: 0,
            token_info: pool_token_info(fraud_mint()), initialized: false,
        }),
        r.1@.len() == 4,
        r.1@[0]@ == unloaded_vault(crime_mint(), profit_mint()),
        r.1@[1]@ == unloaded_vault(fraud_mint(), profit_mint()),
        r.1@[2]@ == unloaded_vault(profit_mint(), crime_mint()),
        r.1@[3]@ == unloaded_vault(profit_mint(), fraud_mint()),
{
    (known_sol_pool_venues(), known_vault_venues())
}

/// A PROFIT -> CRIME or PROFIT -> FRAUD venue quotes a non-zero amount of
/// PROFIT at 100 to 1: exactly `amount * 100`, refused only where that
/// overflows a u64.
pub proof fn lemma_profit_venue_quotes_times_hundred(m: VaultModel, request: QuoteRequest)
    requires
        m.input_mint == profit_mint(),
        m.output_mint == crime_mint() || m.output_mint == fraud_mint(),
        request.swap_type == SwapType::ExactIn,
        request.input_mint == profit_mint(),
        request.amount > 0,
    ensures
        request.amount * 100 <= u64::MAX ==> (vault_quote_spec(m, request) matches Ok(q)
            && q.expected_output == request.amount * 100 && q.amount == request.amount && !q.not_enough_liquidity),
        request.amount * 100 > u64::MAX ==> vault_quote_spec(m, request) is Err,
{
    crate::drfraudsworth::math::vault_math::lemma_profit_to_token_is_times_hundred(m.output_mint, request.amount);
}

} // verus!
