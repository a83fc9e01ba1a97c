//! The CRIME/SOL and FRAUD/SOL pool venues, traded through the Tax Program.
//!
//! Quote flow:
//!   buy  (SOL -> token): tax deducted from the SOL input, then the LP fee, then the AMM swap;
//!   sell (token -> SOL): the LP fee, then the AMM swap, then tax deducted from the SOL output.

use vstd::prelude::*;
use vstd::string::StringSliceAdditionalSpecFns;

use crate::drfraudsworth::accounts::addresses::{
    amm_program_id, crime_mint, crime_sol_pool, epoch_state_pda, fraud_mint, fraud_sol_pool,
    native_mint, protocol_alt, tax_program_id, token_2022_program_id, transfer_hook_program_id,
};
use crate::drfraudsworth::accounts::sol_pool_accounts::{build_buy_account_metas, build_sell_account_metas};
use crate::drfraudsworth::constants::LP_FEE_BPS;
use crate::drfraudsworth::instruction_data::{build_swap_buy_data, build_swap_sell_data, swap_data_spec, SWAP_SOL_BUY, SWAP_SOL_SELL};
use crate::drfraudsworth::math::amm_math::{
    calculate_effective_input, calculate_swap_output, effective_input_spec, lemma_effective_input_monotone,
    lemma_swap_output_bounded, lemma_swap_output_monotone, swap_output_spec,
};
use crate::drfraudsworth::math::tax_math::{calculate_tax, lemma_after_tax_monotone, tax_spec};
use crate::drfraudsworth::state::epoch_state::{parse_epoch_state_spec, tax_bps_spec, ParsedEpochState};
use crate::drfraudsworth::state::pool_state::ParsedPoolState;
use crate::drfraudsworth::token_info_builder::{token_info_for_mint, token_info_spec};
use crate::le_bytes::{le_value, u16_le_value};
use crate::trading_venue::{
    Account, ErrorInfo, PoolProtocol, Pubkey, QuoteRequest, QuoteResult, SwapType, TokenInfo,
    TradingVenueError,
};

verus! {

/// A Titan venue for the CRIME/SOL or FRAUD/SOL pool.
#[derive(Clone)]
pub struct SolPoolVenue {
    pool_address: Pubkey,
    is_crime: bool,
    reserve_sol: u64,
    reserve_token: u64,
    lp_fee_bps: u16,
    buy_tax_bps: u16,
    sell_tax_bps: u16,
    token_info: Vec<TokenInfo>,
    initialized: bool,
}

/// The state of a SOL pool venue.
pub struct SolPoolModel {
    pub pool_address: Pubkey,
    pub is_crime: bool,
    pub reserve_sol: u64,
    pub reserve_token: u64,
    pub lp_fee_bps: u16,
    pub buy_tax_bps: u16,
    pub sell_tax_bps: u16,
    pub token_info: Seq<TokenInfo>,
    pub initialized: bool,
}

impl View for SolPoolVenue {
    type V = SolPoolModel;

    closed spec fn view(&self) -> SolPoolModel {
        SolPoolModel {
            pool_address: self.pool_address,
            is_crime: self.is_crime,
            reserve_sol: self.reserve_sol,
            reserve_token: self.reserve_token,
            lp_fee_bps: self.lp_fee_bps,
            buy_tax_bps: self.buy_tax_bps,
            sell_tax_bps: self.sell_tax_bps,
            token_info: self.token_info@,
            initialized: self.initialized,
        }
    }
}

/// The pool's token: CRIME or FRAUD.
pub open spec fn token_mint_of(is_crime: bool) -> Pubkey {
    if is_crime { crime_mint() } else { fraud_mint() }
}

/// `[SOL, token]` metadata of a pool.
pub open spec fn pool_token_info(token_mint: Pubkey) -> Seq<TokenInfo> {
    seq![token_info_spec(native_mint())->0, token_info_spec(token_mint)->0]
}

/// SOL left to swap after the buy tax.
pub open spec fn buy_swap_input(m: SolPoolModel, amount: u64) -> int {
    amount - tax_spec(amount as int, m.buy_tax_bps as int)
}

/// Token output of a buy, or `None` when the tax or fee rate exceeds 100% or
/// the constant-product denominator is zero.
pub open spec fn buy_output(m: SolPoolModel, amount: u64) -> Option<u64> {
    if amount == 0 {
        Some(0)
    } else if m.buy_tax_bps > 10_000 {
        None
    } else if buy_swap_input(m, amount) == 0 {
        Some(0)
    } else if m.lp_fee_bps > 10_000 {
        None
    } else {
        let e = effective_input_spec(buy_swap_input(m, amount), m.lp_fee_bps as int);
        if m.reserve_sol + e == 0 {
            None
        } else {
            Some(swap_output_spec(m.reserve_sol as int, m.reserve_token as int, e) as u64)
        }
    }
}

/// SOL output of a sell before tax, or `None` when the fee rate exceeds 100% or
/// the constant-product denominator is zero.
pub open spec fn sell_gross_output(m: SolPoolModel, amount: u64) -> Option<u64> {
    if amount == 0 {
        Some(0)
    } else if m.lp_fee_bps > 10_000 {
        None
    } else {
        let e = effective_input_spec(amount as int, m.lp_fee_bps as int);
        if m.reserve_token + e == 0 {
            None
        } else {
            Some(swap_output_spec(m.reserve_token as int, m.reserve_sol as int, e) as u64)
        }
    }
}

/// SOL output of a sell after tax, or `None` when a rate exceeds 100% or the
/// constant-product denominator is zero.
pub open spec fn sell_output(m: SolPoolModel, amount: u64) -> Option<u64> {
    match sell_gross_output(m, amount) {
        None => None,
        Some(gross) => if amount == 0 {
            Some(0)
        } else if m.sell_tax_bps > 10_000 {
            None
        } else {
            Some((gross - tax_spec(gross as int, m.sell_tax_bps as int)) as u64)
        },
    }
}

/// A buy reaches the liquidity check, which multiplies the token reserve by 95.
pub open spec fn buy_reaches_liquidity_check(m: SolPoolModel, amount: u64) -> bool {
    amount != 0 && buy_output(m, amount) is Some && buy_swap_input(m, amount) != 0
}

/// A sell reaches the liquidity check, which multiplies the SOL reserve by 95.
pub open spec fn sell_reaches_liquidity_check(m: SolPoolModel, amount: u64) -> bool {
    amount != 0 && sell_output(m, amount) is Some
}

/// The liquidity check of a quote does not overflow a u64.
pub open spec fn quote_fits(m: SolPoolModel, request: QuoteRequest) -> bool {
    request.swap_type == SwapType::ExactIn ==> if request.input_mint == native_mint() {
        buy_reaches_liquidity_check(m, request.amount) ==> m.reserve_token * 95 <= u64::MAX
    } else {
        sell_reaches_liquidity_check(m, request.amount) ==> m.reserve_sol * 95 <= u64::MAX
    }
}

/// The quote of a buy of `amount` SOL: flagged short of liquidity when the
/// output exceeds 95% of the token reserve.
pub open spec fn buy_quote(m: SolPoolModel, amount: u64) -> QuoteResult {
    let out = buy_output(m, amount)->0;
    QuoteResult {
        input_mint: native_mint(),
        output_mint: token_mint_of(m.is_crime),
        amount,
        expected_output: out,
        not_enough_liquidity: out > m.reserve_token * 95 / 100,
        price: None,
    }
}

/// The quote of a sell of `amount` tokens: flagged short of liquidity when the
/// pre-tax output exceeds 95% of the SOL reserve.
pub open spec fn sell_quote(m: SolPoolModel, amount: u64) -> QuoteResult {
    QuoteResult {
        input_mint: token_mint_of(m.is_crime),
        output_mint: native_mint(),
        amount,
        expected_output: sell_output(m, amount)->0,
        not_enough_liquidity: sell_gross_output(m, amount)->0 > m.reserve_sol * 95 / 100,
        price: None,
    }
}

/// A SOL pool's `(sol_reserve, token_reserve)` as its PoolState data holds them:
/// side A is SOL when `mint_a` (bytes 9..41) is the native mint.
pub open spec fn pool_reserves_spec(data: Seq<u8>) -> (nat, nat) {
    let reserve_a = le_value(data.subrange(137, 145));
    let reserve_b = le_value(data.subrange(145, 153));
    if data.subrange(9, 41) == native_mint().0@ {
        (reserve_a, reserve_b)
    } else {
        (reserve_b, reserve_a)
    }
}

/// The LP fee a PoolState account holds (bytes 153..155).
pub open spec fn pool_fee_spec(data: Seq<u8>) -> u16 {
    u16_le_value(data[153], data[154])
}

/// `m` with its reserves and LP fee taken from PoolState data.
pub open spec fn with_pool_data(m: SolPoolModel, data: Seq<u8>) -> SolPoolModel {
    SolPoolModel {
        reserve_sol: pool_reserves_spec(data).0 as u64,
        reserve_token: pool_reserves_spec(data).1 as u64,
        lp_fee_bps: pool_fee_spec(data),
        ..m
    }
}

/// The Titan error for data a layout refuses.
pub open spec fn is_deserialization_error(e: TradingVenueError) -> bool {
    e is DeserializationFailed
}

/// A u64 times a value no larger than a u64 fits in a u128.
proof fn lemma_u64_product_fits(a: u64, b: u128)
    requires
        b <= u64::MAX,
    ensures
        a * b <= u128::MAX,
{
    assert(a * b <= u64::MAX * u64::MAX) by (nonlinear_arith)
        requires a <= u64::MAX, b <= u64::MAX;
}

impl SolPoolVenue {
    /// The `[SOL, token]` metadata for this pool's token.
    fn pool_tokens(token_mint: &Pubkey) -> (r: Vec<TokenInfo>)
        requires
            token_info_spec(*token_mint) is Some,
        ensures
            r@ == pool_token_info(*token_mint),
    {
        let sol = token_info_for_mint(&native_mint()).unwrap();
        let token = token_info_for_mint(token_mint).unwrap();
        let mut v = Vec::new();
        v.push(sol);
        v.push(token);
        assert(v@ =~= pool_token_info(*token_mint));
        v
    }

    /// A venue with known reserves and tax rates, ready to quote.
    pub fn new_for_testing(is_crime: bool, reserve_sol: u64, reserve_token: u64, buy_tax_bps: u16, sell_tax_bps: u16) -> (r: Self)
        ensures
            r@ == (SolPoolModel {
                pool_address: if is_crime { crime_sol_pool() } else { fraud_sol_pool() },
                is_crime,
                reserve_sol,
                reserve_token,
                lp_fee_bps: LP_FEE_BPS,
                buy_tax_bps,
                sell_tax_bps,
                token_info: pool_token_info(token_mint_of(is_crime)),
                initialized: true,
            }),
    {
        let pool_address = if is_crime { crime_sol_pool() } else { fraud_sol_pool() };
        let token_mint = if is_crime { crime_mint() } else { fraud_mint() };
        SolPoolVenue {
            pool_address,
            is_crime,
            reserve_sol,
            reserve_token,
            lp_fee_bps: LP_FEE_BPS,
            buy_tax_bps,
            sell_tax_bps,
            token_info: Self::pool_tokens(&token_mint),
            initialized: true,
        }
    }

    /// A venue that has not loaded its state yet (call `update_state` before quoting).
    pub fn new_uninitialized(is_crime: bool, pool_address: Pubkey, token_mint: Pubkey) -> (r: Self)
        requires
            token_info_spec(token_mint) is Some,
        ensures
            r@ == (SolPoolModel {
                pool_address,
                is_crime,
                reserve_sol: 0,
                reserve_token: 0,
                lp_fee_bps: LP_FEE_BPS,
                buy_tax_bps: 0,
                sell_tax_bps: 0,
                token_info: pool_token_info(token_mint),
                initialized: false,
            }),
    {
        SolPoolVenue {
            pool_address,
            is_crime,
            reserve_sol: 0,
            reserve_token: 0,
            lp_fee_bps: LP_FEE_BPS,
            buy_tax_bps: 0,
            sell_tax_bps: 0,
            token_info: Self::pool_tokens(&token_mint),
            initialized: false,
        }
    }

    fn token_mint(&self) -> (r: Pubkey)
        ensures
            r == token_mint_of(self@.is_crime),
    {
        if self.is_crime { crime_mint() } else { fraud_mint() }
    }

    /// Quote a buy (SOL -> token).
    fn quote_buy(&self, amount_in: u64) -> (r: Result<QuoteResult, TradingVenueError>)
        requires
            buy_reaches_liquidity_check(self@, amount_in) ==> self@.reserve_token * 95 <= u64::MAX,
        ensures
            r is Ok <==> buy_output(self@, amount_in) is Some,
            r matches Ok(q) ==> q == buy_quote(self@, amount_in),
            r matches Err(e) ==> e == buy_error(self@),
    {
        let token_mint = self.token_mint();
        if amount_in == 0 {
            return Ok(QuoteResult {
                input_mint: native_mint(),
                output_mint: token_mint,
                amount: 0,
                expected_output: 0,
                not_enough_liquidity: false,
                price: None,
            });
        }
        // 1. Tax deducted from the SOL input.
        let tax = match calculate_tax(amount_in, self.buy_tax_bps) {
            Some(t) => t,
            None => return Err(TradingVenueError::CheckedMathError(ErrorInfo::StaticStr("Tax calculation overflow in buy"))),
        };
        let sol_to_swap = match amount_in.checked_sub(tax) {
            Some(s) => s,
            None => return Err(TradingVenueError::CheckedMathError(ErrorInfo::StaticStr("Tax exceeds input amount"))),
        };
        if sol_to_swap == 0 {
            return Ok(QuoteResult {
                input_mint: native_mint(),
                output_mint: token_mint,
                amount: amount_in,
                expected_output: 0,
                not_enough_liquidity: false,
                price: None,
            });
        }
        // 2. LP fee deducted from the post-tax amount.
        let effective_input = match calculate_effective_input(sol_to_swap, self.lp_fee_bps) {
            Some(e) => e,
            None => return Err(TradingVenueError::CheckedMathError(ErrorInfo::StaticStr("LP fee calculation overflow"))),
        };
        // 3. Constant-product swap.
        proof {
            lemma_u64_product_fits(self.reserve_token, effective_input);
        }
        let out_amount = match calculate_swap_output(self.reserve_sol, self.reserve_token, effective_input) {
            Some(o) => o,
            None => return Err(TradingVenueError::CheckedMathError(ErrorInfo::StaticStr("Swap output calculation overflow"))),
        };
        // Flag outputs above 95% of the reserve: the venue cannot meaningfully fill them.
        let not_enough_liquidity = out_amount > self.reserve_token * 95 / 100;
        Ok(QuoteResult {
            input_mint: native_mint(),
            output_mint: token_mint,
            amount: amount_in,
            expected_output: out_amount,
            not_enough_liquidity,
            price: None,
        })
    }

    /// Quote a sell (token -> SOL).
    fn quote_sell(&self, amount_in: u64) -> (r: Result<QuoteResult, TradingVenueError>)
        requires
            sell_reaches_liquidity_check(self@, amount_in) ==> self@.reserve_sol * 95 <= u64::MAX,
        ensures
            r is Ok <==> sell_output(self@, amount_in) is Some,
            r matches Ok(q) ==> q == sell_quote(self@, amount_in),
            r matches Err(e) ==> e == sell_error(self@, amount_in),
    {
        let token_mint = self.token_mint();
        if amount_in == 0 {
            return Ok(QuoteResult {
                input_mint: token_mint,
                output_mint: native_mint(),
                amount: 0,
                expected_output: 0,
                not_enough_liquidity: false,
                price: None,
            });
        }
        // 1. LP fee deducted from the token input.
        let effective_input = match calculate_effective_input(amount_in, self.lp_fee_bps) {
            Some(e) => e,
            None => return Err(TradingVenueError::CheckedMathError(ErrorInfo::StaticStr("LP fee calculation overflow"))),
        };
        // 2. Constant-product swap (token -> SOL).
        proof {
            lemma_u64_product_fits(self.reserve_sol, effective_input);
        }
        let gross_sol = match calculate_swap_output(self.reserve_token, self.reserve_sol, effective_input) {
            Some(g) => g,
            None => return Err(TradingVenueError::CheckedMathError(ErrorInfo::StaticStr("Swap output calculation overflow"))),
        };
        // 3. Tax deducted from the SOL output.
        let tax = match calculate_tax(gross_sol, self.sell_tax_bps) {
            Some(t) => t,
            None => return Err(TradingVenueError::CheckedMathError(ErrorInfo::StaticStr("Tax calculation overflow in sell"))),
        };
        let net_sol = match gross_sol.checked_sub(tax) {
            Some(n) => n,
            None => return Err(TradingVenueError::CheckedMathError(ErrorInfo::StaticStr("Tax exceeds gross output"))),
        };
        let not_enough_liquidity = gross_sol > self.reserve_sol * 95 / 100;
        Ok(QuoteResult {
            input_mint: token_mint,
            output_mint: native_mint(),
            amount: amount_in,
            expected_output: net_sol,
            not_enough_liquidity,
            price: None,
        })
    }
}

/// A checked-math error with its message.
pub open spec fn math_error(msg: &'static str) -> TradingVenueError {
    TradingVenueError::CheckedMathError(ErrorInfo::StaticStr(msg))
}

/// Why a buy fails, by the first step that fails: the tax (rate over 100%),
/// the LP fee (rate over 100%), or the constant-product swap (zero denominator).
pub open spec fn buy_error(m: SolPoolModel) -> TradingVenueError {
    if m.buy_tax_bps > 10_000 {
        math_error("Tax calculation overflow in buy")
    } else if m.lp_fee_bps > 10_000 {
        math_error("LP fee calculation overflow")
    } else {
        math_error("Swap output calculation overflow")
    }
}

/// Why a sell fails, by the first step that fails: the LP fee (rate over
/// 100%), the constant-product swap (zero denominator), or the tax (rate over 100%).
pub open spec fn sell_error(m: SolPoolModel, amount: u64) -> TradingVenueError {
    if m.lp_fee_bps > 10_000 {
        math_error("LP fee calculation overflow")
    } else if sell_gross_output(m, amount) is None {
        math_error("Swap output calculation overflow")
    } else {
        math_error("Tax calculation overflow in sell")
    }
}

/// The quote a SOL pool gives for a request: ExactOut is refused; a request
/// whose input is SOL is a buy, any other a sell; a failing step reports its
/// own error.
pub open spec fn pool_quote_spec(m: SolPoolModel, request: QuoteRequest) -> Result<QuoteResult, TradingVenueError> {
    if request.swap_type == SwapType::ExactOut {
        Err(TradingVenueError::ExactOutNotSupported)
    } else if request.input_mint == native_mint() {
        if buy_output(m, request.amount) is Some { Ok(buy_quote(m, request.amount)) } else { Err(buy_error(m)) }
    } else {
        if sell_output(m, request.amount) is Some { Ok(sell_quote(m, request.amount)) } else { Err(sell_error(m, request.amount)) }
    }
}

/// The taker's wrapped-SOL account and pool-token account (Token-2022).
pub open spec fn user_atas(user: Pubkey, is_crime: bool) -> (Option<(Seq<u8>, u8)>, Option<(Seq<u8>, u8)>) {
    (
        crate::pda::associated_token_address_spec(user, native_mint(), crate::programs::spl_token_program()),
        crate::pda::associated_token_address_spec(user, token_mint_of(is_crime), token_2022_program_id()),
    )
}

/// The minimum output a swap instruction asks for: half the quoted output (0 when the quote fails).
pub open spec fn min_out_spec(quoted: Option<u64>) -> u64 {
    match quoted {
        Some(q) => (q / 2) as u64,
        None => 0,
    }
}

impl SolPoolVenue {
    /// Build a venue from its PoolState account; tax rates load in `update_state`.
    pub fn from_account(pubkey: &Pubkey, account: &Account) -> (r: Result<Self, TradingVenueError>)
        ensures
            r is Err <==> account.data@.len() < crate::drfraudsworth::state::pool_state::POOL_STATE_MIN_LEN,
            r matches Err(e) ==> is_deserialization_error(e),
            r matches Ok(v) ==> v@ == with_pool_data(SolPoolModel {
                pool_address: *pubkey,
                is_crime: *pubkey == crime_sol_pool(),
                reserve_sol: 0,
                reserve_token: 0,
                lp_fee_bps: 0,
                buy_tax_bps: 0,
                sell_tax_bps: 0,
                token_info: pool_token_info(token_mint_of(*pubkey == crime_sol_pool())),
                initialized: false,
            }, account.data@),
    {
        let pool_state = match ParsedPoolState::from_bytes(account.data.as_slice()) {
            Ok(p) => p,
            Err(e) => return Err(TradingVenueError::DeserializationFailed(ErrorInfo::Layout("PoolState", e))),
        };
        proof {
            crate::trading_venue::lemma_pubkey_eq_bytes(pool_state.mint_a, native_mint());
        }
        let (reserve_sol, reserve_token) = pool_state.sol_and_token_reserves();
        let is_crime = *pubkey == crime_sol_pool();
        let token_mint = if is_crime { crime_mint() } else { fraud_mint() };
        Ok(SolPoolVenue {
            pool_address: *pubkey,
            is_crime,
            reserve_sol,
            reserve_token,
            lp_fee_bps: pool_state.lp_fee_bps,
            buy_tax_bps: 0,
            sell_tax_bps: 0,
            token_info: Self::pool_tokens(&token_mint),
            initialized: false,
        })
    }

    /// Whether the tax rates have been loaded.
    pub fn initialized(&self) -> (r: bool)
        ensures
            r == self@.initialized,
    {
        self.initialized
    }

    /// The Tax Program, which executes the swaps.
    pub fn program_id(&self) -> (r: Pubkey)
        ensures
            r == tax_program_id(),
    {
        tax_program_id()
    }

    /// The programs a swap also invokes: the AMM, the Transfer Hook and Token-2022.
    pub fn program_dependencies(&self) -> (r: Vec<Pubkey>)
        ensures
            r@ == seq![amm_program_id(), transfer_hook_program_id(), token_2022_program_id()],
    {
        let mut v = Vec::new();
        v.push(amm_program_id());
        v.push(transfer_hook_program_id());
        v.push(token_2022_program_id());
        assert(v@ =~= seq![amm_program_id(), transfer_hook_program_id(), token_2022_program_id()]);
        v
    }

    /// The pool account.
    pub fn market_id(&self) -> (r: Pubkey)
        ensures
            r == self@.pool_address,
    {
        self.pool_address
    }

    /// `[SOL, token]`.
    pub fn tradable_mints(&self) -> (r: Result<Vec<Pubkey>, TradingVenueError>)
        ensures
            r matches Ok(v) && v@ == seq![native_mint(), token_mint_of(self@.is_crime)],
    {
        let mut v = Vec::new();
        v.push(native_mint());
        v.push(self.token_mint());
        assert(v@ =~= seq![native_mint(), token_mint_of(self@.is_crime)]);
        Ok(v)
    }

    /// The decimals of each token, in token order.
    pub fn decimals(&self) -> (r: Result<Vec<i32>, TradingVenueError>)
        ensures
            r matches Ok(v) && v@ == self@.token_info.map_values(|t: TokenInfo| t.decimals),
    {
        let mut v: Vec<i32> = Vec::new();
        let mut i: usize = 0;
        while i < self.token_info.len()
            invariant
                0 <= i <= self.token_info@.len(),
                v@ == self.token_info@.take(i as int).map_values(|t: TokenInfo| t.decimals),
            decreases self.token_info@.len() - i,
        {
            v.push(self.token_info[i].decimals);
            i = i + 1;
            assert(v@ =~= self.token_info@.take(i as int).map_values(|t: TokenInfo| t.decimals));
        }
        assert(self.token_info@.take(i as int) =~= self.token_info@);
        Ok(v)
    }

    /// The token metadata, `[SOL, token]`.
    pub fn get_token_info(&self) -> (r: &[TokenInfo])
        ensures
            r@ == self@.token_info,
    {
        self.token_info.as_slice()
    }

    /// The metadata of token `i`.
    pub fn get_token(&self, i: usize) -> (r: Result<&TokenInfo, TradingVenueError>)
        ensures
            i < self@.token_info.len() ==> (r matches Ok(t) && *t == self@.token_info[i as int]),
            i >= self@.token_info.len() ==> r == Err::<&TokenInfo, _>(TradingVenueError::TokenInfoIndexError(i)),
    {
        if i < self.token_info.len() {
            Ok(&self.token_info[i])
        } else {
            Err(TradingVenueError::TokenInfoIndexError(i))
        }
    }

    pub fn protocol(&self) -> (r: PoolProtocol)
        ensures
            r == PoolProtocol::DrFraudsworth,
    {
        PoolProtocol::DrFraudsworth
    }

    /// "Dr Fraudsworth CRIME/SOL" or "Dr Fraudsworth FRAUD/SOL".
    pub fn label(&self) -> (r: String)
        ensures
            self@.is_crime ==> r@ == "Dr Fraudsworth CRIME/SOL"@,
            !self@.is_crime ==> r@ == "Dr Fraudsworth FRAUD/SOL"@,
    {
        if self.is_crime {
            "Dr Fraudsworth CRIME/SOL".to_owned()
        } else {
            "Dr Fraudsworth FRAUD/SOL".to_owned()
        }
    }

    /// The pool account, then the EpochState account.
    pub fn get_required_pubkeys_for_update(&self) -> (r: Result<Vec<Pubkey>, TradingVenueError>)
        ensures
            r matches Ok(v) && v@ == seq![self@.pool_address, epoch_state_pda()],
    {
        let mut v = Vec::new();
        v.push(self.pool_address);
        v.push(epoch_state_pda());
        assert(v@ =~= seq![self@.pool_address, epoch_state_pda()]);
        Ok(v)
    }

    /// Load the pool reserves and LP fee from the PoolState account and the tax
    /// rates from the EpochState account (`accounts` in the order of
    /// `get_required_pubkeys_for_update`). A missing account leaves the venue as
    /// it was; undecodable EpochState data keeps the freshly loaded reserves.
    pub fn update_state(&mut self, accounts: &[Option<Account>]) -> (r: Result<(), TradingVenueError>)
        requires
            accounts@.len() >= 2,
        ensures
            accounts@[0] is None ==> r == Err::<(), _>(TradingVenueError::NoAccountFound(ErrorInfo::Pubkey(old(self)@.pool_address))) && final(self)@ == old(self)@,
            accounts@[0] is Some && accounts@[1] is None ==> r == Err::<(), _>(TradingVenueError::NoAccountFound(ErrorInfo::Pubkey(epoch_state_pda()))) && final(self)@ == old(self)@,
            (accounts@[0] is Some && accounts@[1] is Some) ==> {
                let pool_data = accounts@[0]->0.data@;
                let epoch_data = accounts@[1]->0.data@;
                let loaded = with_pool_data(old(self)@, pool_data);
                if pool_data.len() < crate::drfraudsworth::state::pool_state::POOL_STATE_MIN_LEN {
                    r matches Err(e) && is_deserialization_error(e) && final(self)@ == old(self)@
                } else {
                    match parse_epoch_state_spec(epoch_data) {
                        Err(_) => r matches Err(e) && is_deserialization_error(e) && final(self)@ == loaded,
                        Ok(es) => r is Ok && final(self)@ == (SolPoolModel {
                            buy_tax_bps: tax_bps_spec(es, old(self)@.is_crime, true),
                            sell_tax_bps: tax_bps_spec(es, old(self)@.is_crime, false),
                            initialized: true,
                            ..loaded
                        }),
                    }
                }
            },
    {
        let pool_account = match &accounts[0] {
            Some(a) => a,
            None => return Err(TradingVenueError::NoAccountFound(ErrorInfo::Pubkey(self.pool_address))),
        };
        let epoch_account = match &accounts[1] {
            Some(a) => a,
            None => return Err(TradingVenueError::NoAccountFound(ErrorInfo::Pubkey(epoch_state_pda()))),
        };
        let pool_state = match ParsedPoolState::from_bytes(pool_account.data.as_slice()) {
            Ok(p) => p,
            Err(e) => return Err(TradingVenueError::DeserializationFailed(ErrorInfo::Layout("PoolState", e))),
        };
        proof {
            crate::trading_venue::lemma_pubkey_eq_bytes(pool_state.mint_a, native_mint());
        }
        let (reserve_sol, reserve_token) = pool_state.sol_and_token_reserves();
        self.reserve_sol = reserve_sol;
        self.reserve_token = reserve_token;
        self.lp_fee_bps = pool_state.lp_fee_bps;

        let epoch_state = match ParsedEpochState::from_bytes(epoch_account.data.as_slice()) {
            Ok(s) => s,
            Err(e) => return Err(TradingVenueError::DeserializationFailed(ErrorInfo::Layout("EpochState", e))),
        };
        self.buy_tax_bps = epoch_state.get_tax_bps(self.is_crime, true);
        self.sell_tax_bps = epoch_state.get_tax_bps(self.is_crime, false);
        self.initialized = true;
        Ok(())
    }

    /// Quote an exact-in swap: SOL input buys the token, any other input sells it.
    pub fn quote(&self, request: QuoteRequest) -> (r: Result<QuoteResult, TradingVenueError>)
        requires
            quote_fits(self@, request),
        ensures
            r == pool_quote_spec(self@, request),
    {
        match request.swap_type {
            SwapType::ExactOut => return Err(TradingVenueError::ExactOutNotSupported),
            SwapType::ExactIn => {},
        }
        let is_buy = request.input_mint == native_mint();
        if is_buy {
            self.quote_buy(request.amount)
        } else {
            self.quote_sell(request.amount)
        }
    }

    /// Build the Tax Program swap instruction for `user`. The minimum output is
    /// half the quoted output (the program enforces a 50% output floor).
    ///
    /// Fails only where an address derivation (the user's token accounts or a
    /// whitelist PDA) finds no address.
    pub fn generate_swap_instruction(&self, request: QuoteRequest, user: Pubkey) -> (r: Result<crate::trading_venue::Instruction, TradingVenueError>)
        requires
            request.input_mint == native_mint() ==> (buy_reaches_liquidity_check(self@, request.amount) ==> self@.reserve_token * 95 <= u64::MAX),
            request.input_mint != native_mint() ==> (sell_reaches_liquidity_check(self@, request.amount) ==> self@.reserve_sol * 95 <= u64::MAX),
        ensures
            r matches Err(e) ==> e is AddressDerivationFailed,
            r is Err ==> user_atas(user, self@.is_crime).0 is None || user_atas(user, self@.is_crime).1 is None
                || crate::drfraudsworth::accounts::hook_accounts::whitelist_pda(crate::drfraudsworth::accounts::sol_pool_accounts::pool_addresses_spec(self@.is_crime).2) is None
                || exists|k: Pubkey| k.0@ == user_atas(user, self@.is_crime).1.unwrap().0 && crate::drfraudsworth::accounts::hook_accounts::whitelist_pda(k) is None,
            r matches Ok(ix) ==> {
                let is_buy = request.input_mint == native_mint();
                let (_, _, vault_b, token_mint) = crate::drfraudsworth::accounts::sol_pool_accounts::pool_addresses_spec(self@.is_crime);
                &&& ix.program_id == tax_program_id()
                &&& ix.accounts@.len() > 10
                &&& user_atas(user, self@.is_crime).0 matches Some(wsol) && ix.accounts@[9].pubkey.0@ == wsol.0
                &&& user_atas(user, self@.is_crime).1 matches Some(tok) && ix.accounts@[10].pubkey.0@ == tok.0
                &&& if is_buy {
                    &&& crate::drfraudsworth::accounts::sol_pool_accounts::named_then_hooks(
                        crate::drfraudsworth::accounts::sol_pool_accounts::buy_named_metas(user, ix.accounts@[9].pubkey, ix.accounts@[10].pubkey, self@.is_crime),
                        token_mint, vault_b, ix.accounts@[10].pubkey, Some(ix.accounts@))
                    &&& ix.data@ == swap_data_spec(SWAP_SOL_BUY.spec_bytes(), request.amount, min_out_spec(buy_output(self@, request.amount)), self@.is_crime)
                } else {
                    &&& crate::drfraudsworth::accounts::sol_pool_accounts::named_then_hooks(
                        crate::drfraudsworth::accounts::sol_pool_accounts::sell_named_metas(user, ix.accounts@[10].pubkey, ix.accounts@[9].pubkey, self@.is_crime),
                        token_mint, ix.accounts@[10].pubkey, vault_b, Some(ix.accounts@))
                    &&& ix.data@ == swap_data_spec(SWAP_SOL_SELL.spec_bytes(), request.amount, min_out_spec(sell_output(self@, request.amount)), self@.is_crime)
                }
            },
    {
        let is_buy = request.input_mint == native_mint();
        let token_mint = self.token_mint();
        let user_wsol_ata = match crate::pda::get_associated_token_address(&user, &native_mint()) {
            Some(k) => k,
            None => return Err(TradingVenueError::AddressDerivationFailed(ErrorInfo::Pubkey(user))),
        };
        let user_token_ata = match crate::pda::get_associated_token_address_with_program_id(&user, &token_mint, &token_2022_program_id()) {
            Some(k) => k,
            None => return Err(TradingVenueError::AddressDerivationFailed(ErrorInfo::Pubkey(user))),
        };
        if is_buy {
            let metas = match build_buy_account_metas(&user, &user_wsol_ata, &user_token_ata, self.is_crime) {
                Some(m) => m,
                None => return Err(TradingVenueError::AddressDerivationFailed(ErrorInfo::Pubkey(user))),
            };
            let quoted = match self.quote_buy(request.amount) {
                Ok(q) => q.expected_output,
                Err(_) => 0,
            };
            let data = build_swap_buy_data(request.amount, quoted / 2, self.is_crime);
            Ok(crate::trading_venue::Instruction { program_id: tax_program_id(), accounts: metas, data })
        } else {
            let metas = match build_sell_account_metas(&user, &user_token_ata, &user_wsol_ata, self.is_crime) {
                Some(m) => m,
                None => return Err(TradingVenueError::AddressDerivationFailed(ErrorInfo::Pubkey(user))),
            };
            let quoted = match self.quote_sell(request.amount) {
                Ok(q) => q.expected_output,
                Err(_) => 0,
            };
            let data = build_swap_sell_data(request.amount, quoted / 2, self.is_crime);
            Ok(crate::trading_venue::Instruction { program_id: tax_program_id(), accounts: metas, data })
        }
    }

    /// The protocol's address lookup table, which holds every program id, PDA,
    /// pool, mint and vault a swap touches.
    pub fn get_lookup_table_keys(&self) -> (r: Result<Vec<Pubkey>, TradingVenueError>)
        ensures
            r matches Ok(v) && v@ == seq![protocol_alt()],
    {
        let mut v = Vec::new();
        v.push(protocol_alt());
        assert(v@ =~= seq![protocol_alt()]);
        Ok(v)
    }
}

/// Buying with more SOL never yields fewer tokens.
pub proof fn lemma_buy_output_monotone(m: SolPoolModel, a1: u64, a2: u64)
    requires
        a1 <= a2,
        buy_output(m, a1) is Some,
        buy_output(m, a2) is Some,
    ensures
        buy_output(m, a1)->0 <= buy_output(m, a2)->0,
{
    if a1 != 0 && buy_swap_input(m, a1) != 0 {
        lemma_after_tax_monotone(a1 as int, a2 as int, m.buy_tax_bps as int);
        let s1 = buy_swap_input(m, a1);
        let s2 = buy_swap_input(m, a2);
        lemma_effective_input_monotone(s1, s2, m.lp_fee_bps as int);
        let e1 = effective_input_spec(s1, m.lp_fee_bps as int);
        let e2 = effective_input_spec(s2, m.lp_fee_bps as int);
        lemma_swap_output_monotone(m.reserve_sol as int, m.reserve_token as int, e1, e2);
        lemma_swap_output_bounded(m.reserve_sol as int, m.reserve_token as int, e1);
        lemma_swap_output_bounded(m.reserve_sol as int, m.reserve_token as int, e2);
    } else if a1 != 0 {
        lemma_after_tax_monotone(a1 as int, a2 as int, m.buy_tax_bps as int);
    }
}

/// Selling more tokens never yields less SOL, before or after tax.
pub proof fn lemma_sell_output_monotone(m: SolPoolModel, a1: u64, a2: u64)
    requires
        a1 <= a2,
        sell_output(m, a1) is Some,
        sell_output(m, a2) is Some,
    ensures
        sell_gross_output(m, a1)->0 <= sell_gross_output(m, a2)->0,
        sell_output(m, a1)->0 <= sell_output(m, a2)->0,
{
    if a1 != 0 {
        lemma_effective_input_monotone(a1 as int, a2 as int, m.lp_fee_bps as int);
        let e1 = effective_input_spec(a1 as int, m.lp_fee_bps as int);
        let e2 = effective_input_spec(a2 as int, m.lp_fee_bps as int);
        lemma_swap_output_monotone(m.reserve_token as int, m.reserve_sol as int, e1, e2);
        lemma_swap_output_bounded(m.reserve_token as int, m.reserve_sol as int, e1);
        lemma_swap_output_bounded(m.reserve_token as int, m.reserve_sol as int, e2);
        let g1 = sell_gross_output(m, a1)->0;
        let g2 = sell_gross_output(m, a2)->0;
        lemma_after_tax_monotone(g1 as int, g2 as int, m.sell_tax_bps as int);
    } else {
        if a2 != 0 {
            let e2 = effective_input_spec(a2 as int, m.lp_fee_bps as int);
            lemma_effective_input_monotone(0, a2 as int, m.lp_fee_bps as int);
            lemma_swap_output_bounded(m.reserve_token as int, m.reserve_sol as int, e2);
            let g2 = sell_gross_output(m, a2)->0;
            lemma_after_tax_monotone(0, g2 as int, m.sell_tax_bps as int);
        }
    }
}

/// A quote never promises more than the pool holds: a buy's output stays within
/// the token reserve, a sell's within the SOL reserve.
pub proof fn lemma_quote_within_reserves(m: SolPoolModel, amount: u64)
    ensures
        buy_output(m, amount) matches Some(out) ==> out <= m.reserve_token,
        sell_output(m, amount) matches Some(out) ==> out <= m.reserve_sol,
{
    if amount != 0 && buy_output(m, amount) is Some && buy_swap_input(m, amount) != 0 {
        let e = effective_input_spec(buy_swap_input(m, amount), m.lp_fee_bps as int);
        lemma_after_tax_monotone(0, amount as int, m.buy_tax_bps as int);
        lemma_effective_input_monotone(0, buy_swap_input(m, amount), m.lp_fee_bps as int);
        lemma_swap_output_bounded(m.reserve_sol as int, m.reserve_token as int, e);
    }
    if amount != 0 && sell_output(m, amount) is Some {
        let e = effective_input_spec(amount as int, m.lp_fee_bps as int);
        lemma_effective_input_monotone(0, amount as int, m.lp_fee_bps as int);
        lemma_swap_output_bounded(m.reserve_token as int, m.reserve_sol as int, e);
        let g = sell_gross_output(m, amount)->0;
        lemma_after_tax_monotone(0, g as int, m.sell_tax_bps as int);
    }
}

/// A zero-input quote in either direction succeeds with zero output and no
/// liquidity flag.
pub proof fn lemma_zero_input_quotes_zero(m: SolPoolModel)
    ensures
        buy_output(m, 0) == Some(0u64),
        sell_output(m, 0) == Some(0u64),
        !buy_quote(m, 0).not_enough_liquidity,
        !sell_quote(m, 0).not_enough_liquidity,
{
}

/// A buy quote (SOL in) follows the on-chain pipeline: tax off the SOL input,
/// then the LP fee, then the constant-product swap; an input the tax reduces
/// to nothing quotes zero; the quote is flagged short of liquidity when the
/// output exceeds 95% of the token reserve.
pub proof fn lemma_buy_quote_pipeline(m: SolPoolModel, request: QuoteRequest)
    requires
        request.swap_type == SwapType::ExactIn,
        request.input_mint == native_mint(),
        request.amount > 0,
        m.buy_tax_bps <= 10_000,
        m.lp_fee_bps <= 10_000,
    ensures
        ({
            let a = request.amount;
            let s = a - tax_spec(a as int, m.buy_tax_bps as int);
            let e = effective_input_spec(s, m.lp_fee_bps as int);
            if s == 0 {
                pool_quote_spec(m, request) matches Ok(q) && q.amount == a && q.expected_output == 0
            } else if m.reserve_sol + e == 0 {
                pool_quote_spec(m, request) == Err::<QuoteResult, _>(math_error("Swap output calculation overflow"))
            } else {
                let x = swap_output_spec(m.reserve_sol as int, m.reserve_token as int, e);
                pool_quote_spec(m, request) matches Ok(q) && q.amount == a && q.expected_output == x
                    && q.not_enough_liquidity == (x > m.reserve_token * 95 / 100)
                    && q.input_mint == native_mint() && q.output_mint == token_mint_of(m.is_crime)
            }
        }),
{
    let a = request.amount;
    let s = buy_swap_input(m, a);
    if s != 0 {
        let e = effective_input_spec(s, m.lp_fee_bps as int);
        lemma_after_tax_monotone(0, a as int, m.buy_tax_bps as int);
        lemma_effective_input_monotone(0, s, m.lp_fee_bps as int);
        if m.reserve_sol + e != 0 {
            lemma_swap_output_bounded(m.reserve_sol as int, m.reserve_token as int, e);
        }
    }
}

/// A sell quote (token in) follows the on-chain pipeline: the LP fee off the
/// token input, the constant-product swap, then tax off the SOL output; the
/// quote is flagged short of liquidity when the pre-tax output exceeds 95% of
/// the SOL reserve.
pub proof fn lemma_sell_quote_pipeline(m: SolPoolModel, request: QuoteRequest)
    requires
        request.swap_type == SwapType::ExactIn,
        request.input_mint != native_mint(),
        request.amount > 0,
        m.sell_tax_bps <= 10_000,
        m.lp_fee_bps <= 10_000,
    ensures
        ({
            let a = request.amount;
            let e = effective_input_spec(a as int, m.lp_fee_bps as int);
            if m.reserve_token + e == 0 {
                pool_quote_spec(m, request) == Err::<QuoteResult, _>(math_error("Swap output calculation overflow"))
            } else {
                let x = swap_output_spec(m.reserve_token as int, m.reserve_sol as int, e);
                pool_quote_spec(m, request) matches Ok(q) && q.amount == a
                    && q.expected_output == x - tax_spec(x, m.sell_tax_bps as int)
                    && q.not_enough_liquidity == (x > m.reserve_sol * 95 / 100)
                    && q.input_mint == token_mint_of(m.is_crime) && q.output_mint == native_mint()
            }
        }),
{
    let a = request.amount;
    let e = effective_input_spec(a as int, m.lp_fee_bps as int);
    lemma_effective_input_monotone(0, a as int, m.lp_fee_bps as int);
    if m.reserve_token + e != 0 {
        lemma_swap_output_bounded(m.reserve_token as int, m.reserve_sol as int, e);
        let x = swap_output_spec(m.reserve_token as int, m.reserve_sol as int, e);
        lemma_after_tax_monotone(0, x, m.sell_tax_bps as int);
    }
}

/// More SOL in never buys fewer tokens, and more tokens in never sells for
/// less SOL: of two successful quotes in the same direction, the larger input
/// has the larger output.
pub proof fn lemma_quote_monotone(m: SolPoolModel, r1: QuoteRequest, r2: QuoteRequest)
    requires
        r1.swap_type == SwapType::ExactIn,
        r2.swap_type == SwapType::ExactIn,
        (r1.input_mint == native_mint()) == (r2.input_mint == native_mint()),
        r1.amount <= r2.amount,
        pool_quote_spec(m, r1) is Ok,
        pool_quote_spec(m, r2) is Ok,
    ensures
        pool_quote_spec(m, r1)->Ok_0.expected_output <= pool_quote_spec(m, r2)->Ok_0.expected_output,
{
    if r1.input_mint == native_mint() {
        lemma_buy_output_monotone(m, r1.amount, r2.amount);
    } else {
        lemma_sell_output_monotone(m, r1.amount, r2.amount);
    }
}

} // verus!
