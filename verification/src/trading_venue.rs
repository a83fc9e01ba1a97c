//! The venue contract shared by every venue in this crate: addresses, account
//! snapshots, quote requests and results, token metadata, instructions and
//! errors, as plain values.

use vstd::prelude::*;

verus! {

/// A 32-byte Solana address.
#[derive(Clone, Copy, Debug, Hash)]
pub struct Pubkey(pub [u8; 32]);

impl PartialEq for Pubkey {
    fn eq(&self, other: &Self) -> (r: bool) {
        broadcast use vstd::array::group_array_axioms;
        let mut i: usize = 0;
        while i < 32
            invariant
                0 <= i <= 32,
                forall|j: int| 0 <= j < i ==> self.0[j] == other.0[j],
            decreases 32 - i,
        {
            if self.0[i] != other.0[i] {
                return false;
            }
            i = i + 1;
        }
        assert(self.0 =~= other.0);
        true
    }
}

impl vstd::std_specs::cmp::PartialEqSpecImpl for Pubkey {
    open spec fn obeys_eq_spec() -> bool {
        true
    }

    open spec fn eq_spec(&self, other: &Pubkey) -> bool {
        self.0 == other.0
    }
}

impl Eq for Pubkey {
}

/// Two addresses are equal exactly when their byte sequences are.
pub proof fn lemma_pubkey_eq_bytes(a: Pubkey, b: Pubkey)
    ensures
        (a == b) <==> a.0@ == b.0@,
{
    broadcast use vstd::array::group_array_axioms;
    if a.0@ == b.0@ {
        assert forall|i: int| 0 <= i < 32 implies a.0[i] == b.0[i] by {
            assert(a.0@[i] == b.0@[i]);
        }
        assert(a.0 =~= b.0);
    }
}

/// The address whose bytes are `s`.
pub open spec fn pubkey_of(s: Seq<u8>) -> Pubkey {
    Pubkey(choose|a: [u8; 32]| #![trigger a@] a@ == s)
}

/// An address is the address of its own bytes.
pub proof fn lemma_pubkey_of(k: Pubkey)
    ensures
        pubkey_of(k.0@) == k,
{
    let a = choose|a: [u8; 32]| #![trigger a@] a@ == k.0@;
    assert(a@ == k.0@);
    lemma_pubkey_eq_bytes(Pubkey(a), k);
}

impl Pubkey {
    pub fn new_from_array(bytes: [u8; 32]) -> (r: Pubkey)
        ensures
            r.0 == bytes,
    {
        Pubkey(bytes)
    }

    /// The 32 bytes of `data` at `off`.
    pub fn read_from(data: &[u8], off: usize) -> (r: Pubkey)
        requires
            off + 32 <= data@.len(),
        ensures
            r.0@ == data@.subrange(off as int, off + 32),
    {
        let len = data.len();
        let mut bytes = [0u8; 32];
        let mut i: usize = 0;
        while i < 32
            invariant
                0 <= i <= 32,
                len == data@.len(),
                off + 32 <= len,
                forall|j: int| 0 <= j < i ==> bytes@[j] == data@[off + j],
            decreases 32 - i,
        {
            bytes[i] = data[off + i];
            i = i + 1;
        }
        assert(bytes@ =~= data@.subrange(off as int, off + 32));
        Pubkey(bytes)
    }

    pub fn to_bytes(&self) -> (r: [u8; 32])
        ensures
            r == self.0,
    {
        self.0
    }
}

/// A loaded on-chain account: what the venues read of it.
#[derive(Clone, Debug)]
pub struct Account {
    pub lamports: u64,
    pub data: Vec<u8>,
    pub owner: Pubkey,
    pub executable: bool,
    pub rent_epoch: u64,
}

/// The view of an optional list of account references.
pub open spec fn metas_view(r: Option<Vec<AccountMeta>>) -> Option<Seq<AccountMeta>> {
    match r {
        Some(v) => Some(v@),
        None => None,
    }
}

/// One account reference of an instruction.
#[derive(Clone, Copy, PartialEq, Eq, Debug)]
pub struct AccountMeta {
    pub pubkey: Pubkey,
    pub is_signer: bool,
    pub is_writable: bool,
}

impl AccountMeta {
    /// A writable account reference.
    pub fn new(pubkey: Pubkey, is_signer: bool) -> (r: AccountMeta)
        ensures
            r == (AccountMeta { pubkey, is_signer, is_writable: true }),
    {
        AccountMeta { pubkey, is_signer, is_writable: true }
    }

    /// A read-only account reference.
    pub fn new_readonly(pubkey: Pubkey, is_signer: bool) -> (r: AccountMeta)
        ensures
            r == (AccountMeta { pubkey, is_signer, is_writable: false }),
    {
        AccountMeta { pubkey, is_signer, is_writable: false }
    }
}

/// A program instruction: program, account references and data bytes.
#[derive(Clone, Debug)]
pub struct Instruction {
    pub program_id: Pubkey,
    pub accounts: Vec<AccountMeta>,
    pub data: Vec<u8>,
}

/// Exact-in or exact-out routing.
#[derive(Clone, Copy, PartialEq, Eq, Debug)]
pub enum SwapType {
    ExactIn,
    ExactOut,
}

/// A quote request: swap `amount` of `input_mint` into `output_mint`.
#[derive(Clone, Copy, PartialEq, Eq, Debug)]
pub struct QuoteRequest {
    pub input_mint: Pubkey,
    pub output_mint: Pubkey,
    pub amount: u64,
    pub swap_type: SwapType,
}

/// A marginal rate `numerator / denominator` in raw output atoms per raw input atom.
#[derive(Clone, Copy, PartialEq, Eq, Debug)]
pub struct MarginalPrice {
    pub numerator: u64,
    pub denominator: u64,
}

/// A quote: `expected_output` atoms of `output_mint` for `amount` atoms of `input_mint`.
///
/// `price` is the marginal rate where the venue reports one.
#[derive(Clone, Copy, PartialEq, Eq, Debug)]
pub struct QuoteResult {
    pub input_mint: Pubkey,
    pub output_mint: Pubkey,
    pub amount: u64,
    pub expected_output: u64,
    pub not_enough_liquidity: bool,
    pub price: Option<MarginalPrice>,
}

/// Token metadata for one mint of a venue.
#[derive(Clone, Copy, PartialEq, Eq, Debug)]
pub struct TokenInfo {
    pub pubkey: Pubkey,
    pub decimals: i32,
    pub is_token_2022: bool,
    pub transfer_fee: Option<u16>,
    pub maximum_fee: Option<u64>,
}

/// The protocol a venue belongs to.
#[derive(Clone, Copy, PartialEq, Eq, Debug)]
pub enum PoolProtocol {
    DrFraudsworth,
    Quay,
}

/// One decompiled instruction of a confirmed transaction.
#[derive(Clone, Debug, PartialEq, Eq)]
pub struct ParsedInstruction {
    pub program_id: Pubkey,
    pub accounts: Vec<Pubkey>,
    pub data: Vec<u8>,
}

/// A pool created by a confirmed transaction, with its token mints.
#[derive(Clone, Debug, PartialEq, Eq)]
pub struct PoolCreation {
    pub protocol: PoolProtocol,
    pub pool: Pubkey,
    pub mints: Vec<Pubkey>,
}

/// Why an account's bytes could not be decoded.
#[derive(Clone, Copy, PartialEq, Eq, Debug)]
pub enum LayoutError {
    /// The data is `got` bytes long; the layout needs at least `need`.
    TooShort { got: usize, need: usize },
    /// The leading discriminator bytes do not match the expected account type.
    BadDiscriminator,
}

/// Context attached to a venue error.
#[derive(Clone, Copy, PartialEq, Eq, Debug)]
pub enum ErrorInfo {
    StaticStr(&'static str),
    Pubkey(Pubkey),
    Layout(&'static str, LayoutError),
}

/// Errors a venue reports.
#[derive(Clone, Copy, PartialEq, Eq, Debug)]
pub enum TradingVenueError {
    CheckedMathError(ErrorInfo),
    DeserializationFailed(ErrorInfo),
    NoAccountFound(ErrorInfo),
    MissingState(ErrorInfo),
    InvalidMint(ErrorInfo),
    UnsupportedVenue(ErrorInfo),
    NotInitialized(ErrorInfo),
    AddressDerivationFailed(ErrorInfo),
    TokenInfoIndexError(usize),
    ExactOutNotSupported,
    FailedToFetchMultipleAccountData,
}

} // verus!
