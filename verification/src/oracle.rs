//! Price sources: their classification and the normalization of the prices
//! they report.

use vstd::prelude::*;
use crate::account::{AccountView, AccountWrite, AccountWriteView};
use crate::address::Address;
use crate::error::{QuasarError, QuasarErrorCode, SourceFileId};
use crate::fixed_point::I80F48;
use crate::state::BaseToken;

verus! {

/// The tag that marks an account as a stub feed; stored little-endian at the
/// start of the account's data.
pub const STUB_MAGIC: u32 = 0x6F676E4D;

/// The tag with which the data of an external feed starts, read
/// little-endian.
pub const PYTH_MAGIC: u32 = 0xa1b2c3d4;

/// Largest power of ten that a price is scaled by.
pub const MAX_SCALING_EXPONENT: u32 = 19;

/// The kinds of price source.
#[derive(Clone, Copy, Debug, PartialEq, Eq, Structural)]
pub enum OracleType {
    /// An external feed, trusted by identity.
    Pyth,
    /// A test feed owned by this module, which stores a price directly.
    Stub,
    /// Anything else.
    Unknown,
}

/// What the host's decoding of a price source's data presents.
#[derive(Clone, Copy, Debug, PartialEq, Eq, Structural)]
pub struct PriceRecord {
    /// Mantissa of the aggregate price that an external feed reports.
    pub price: i64,
    /// Decimal exponent that an external feed reports with its price.
    pub expo: i32,
    /// The price that a stub feed stores, already in fixed-point scale.
    pub stub_price: I80F48,
}

/// The four bytes of [`STUB_MAGIC`], in the order in which they are stored.
pub open spec fn stub_magic_bytes() -> Seq<u8> {
    seq![77u8, 110, 103, 111]
}

/// The kind of price source that account data stands for, told by its first
/// four bytes.
pub open spec fn spec_oracle_type(data: Seq<u8>) -> OracleType {
    if data.len() >= 4 && data[0] == 212 && data[1] == 195 && data[2] == 178 && data[3] == 161 {
        OracleType::Pyth
    } else if data.len() >= 4 && data[0] == 77 && data[1] == 110 && data[2] == 103 && data[3] == 111 {
        OracleType::Stub
    } else {
        OracleType::Unknown
    }
}

/// Classifies a price-source account.
pub fn determine_oracle_type(oracle_ai: &AccountView) -> (oracle_type: OracleType)
    ensures
        oracle_type == spec_oracle_type(oracle_ai.data@),
{
    let data = &oracle_ai.data;
    if data.len() < 4 {
        OracleType::Unknown
    } else if data[0] == 212 && data[1] == 195 && data[2] == 178 && data[3] == 161 {
        OracleType::Pyth
    } else if data[0] == 77 && data[1] == 110 && data[2] == 103 && data[3] == 111 {
        OracleType::Stub
    } else {
        OracleType::Unknown
    }
}

/// The error that a failed check of this component raises.
pub open spec fn oracle_error(code: QuasarErrorCode, step: u32) -> QuasarError {
    QuasarError::at(code, SourceFileId::Oracle, step)
}

/// Whether account data is that of a freshly allocated account, as far as
/// the tag goes: at least four bytes, the first four of them zero.
pub open spec fn is_fresh(data: Seq<u8>) -> bool {
    data.len() >= 4 && data[0] == 0 && data[1] == 0 && data[2] == 0 && data[3] == 0
}

/// The error with which [`init_stub_oracle`] refuses, if it refuses.
pub open spec fn stub_init_refusal(oracle: AccountView, program_id: Address) -> Option<QuasarError> {
    if oracle.owner != program_id {
        Some(oracle_error(QuasarErrorCode::InvalidOracleOwner, 1))
    } else if oracle.data@.len() < 4 {
        Some(oracle_error(QuasarErrorCode::InvalidAccountSize, 2))
    } else if !is_fresh(oracle.data@) {
        Some(oracle_error(QuasarErrorCode::OracleAlreadyInitialized, 3))
    } else {
        None
    }
}

/// The write that marks the account `key` as a stub feed.
pub open spec fn stub_mark(key: Address) -> AccountWriteView {
    AccountWriteView { key, offset: 0, bytes: stub_magic_bytes() }
}

/// Initializes a stub feed: the account has to be owned by this module and
/// fresh; the write that marks it with the stub tag is handed back.
pub fn init_stub_oracle(oracle_ai: &AccountView, program_id: &Address) -> (r: Result<AccountWrite, QuasarError>)
    ensures
        match stub_init_refusal(*oracle_ai, *program_id) {
            Some(e) => r == Err::<AccountWrite, QuasarError>(e),
            None => r is Ok && r->Ok_0@ == stub_mark(oracle_ai.key),
        },
{
    if !oracle_ai.owner.equals(program_id) {
        return Err(QuasarError::new(QuasarErrorCode::InvalidOracleOwner, SourceFileId::Oracle, 1));
    }
    let data = &oracle_ai.data;
    if data.len() < 4 {
        return Err(QuasarError::new(QuasarErrorCode::InvalidAccountSize, SourceFileId::Oracle, 2));
    }
    if !(data[0] == 0 && data[1] == 0 && data[2] == 0 && data[3] == 0) {
        return Err(QuasarError::new(QuasarErrorCode::OracleAlreadyInitialized, SourceFileId::Oracle, 3));
    }
    let mut bytes: Vec<u8> = Vec::new();
    bytes.push(77);
    bytes.push(110);
    bytes.push(103);
    bytes.push(111);
    assert(bytes@ =~= stub_magic_bytes());
    Ok(AccountWrite { key: oracle_ai.key, offset: 0, bytes })
}

/// Ten to the power `n`.
pub open spec fn pow10(n: nat) -> nat
    decreases n,
{
    if n == 0 {
        1
    } else {
        10 * pow10((n - 1) as nat)
    }
}

/// Powers of ten grow with the exponent.
pub proof fn lemma_pow10_monotonic(a: nat, b: nat)
    requires
        a <= b,
    ensures
        1 <= pow10(a) <= pow10(b),
    decreases b,
{
    if b == 0 {
    } else if a == b {
        lemma_pow10_monotonic(0, (b - 1) as nat);
    } else {
        lemma_pow10_monotonic(a, (b - 1) as nat);
    }
}

/// The largest power of ten that fits 64 bits is the nineteenth.
pub proof fn lemma_pow10_bound()
    ensures
        pow10(19) == 10_000_000_000_000_000_000,
        pow10(19) <= u64::MAX < pow10(20),
{
    reveal_with_fuel(pow10, 21);
}

/// Ten to the power `n`, for the exponents whose power fits 64 bits.
pub fn checked_pow10(n: u32) -> (power: Option<u64>)
    ensures
        n <= MAX_SCALING_EXPONENT ==> power == Some(pow10(n as nat) as u64) && pow10(n as nat)
            <= u64::MAX,
        n > MAX_SCALING_EXPONENT ==> power is None && pow10(n as nat) > u64::MAX,
{
    proof {
        lemma_pow10_bound();
    }
    if n > MAX_SCALING_EXPONENT {
        proof {
            lemma_pow10_monotonic(20, n as nat);
        }
        return None;
    }
    let mut power: u64 = 1;
    let mut i: u32 = 0;
    while i < n
        invariant
            i <= n <= 19,
            power == pow10(i as nat),
            pow10(19) == 10_000_000_000_000_000_000,
        decreases n - i,
    {
        proof {
            lemma_pow10_monotonic((i + 1) as nat, 19);
        }
        power = power * 10;
        i += 1;
    }
    Some(power)
}

/// The magnitude of a decimal exponent.
pub open spec fn magnitude(exponent: i32) -> nat {
    if exponent < 0 {
        (-exponent) as nat
    } else {
        exponent as nat
    }
}

/// The price that a scaling attempt gives: the scaled value, or an
/// arithmetic error where the scaling overflowed.
pub open spec fn spec_price_from_scaled(scaled: Option<I80F48>) -> Result<I80F48, QuasarError> {
    match scaled {
        Some(price) => Ok(price),
        None => Err(oracle_error(QuasarErrorCode::MathError, 5)),
    }
}

/// The normalized price of a report `mantissa * 10^exponent`: the mantissa
/// as a fixed-point number, divided by `10^|exponent|` where the exponent is
/// negative and multiplied by `10^exponent` otherwise.  A power of ten that
/// does not fit 64 bits, and an overflow in the scaling, are arithmetic
/// errors.
pub open spec fn spec_normalize_price(mantissa: i64, exponent: i32) -> Result<I80F48, QuasarError> {
    if magnitude(exponent) > MAX_SCALING_EXPONENT {
        Err(oracle_error(QuasarErrorCode::MathError, 4))
    } else {
        let value = I80F48::spec_from_int(mantissa as int);
        let adjustment = I80F48::spec_from_int(pow10(magnitude(exponent)) as int);
        if exponent < 0 {
            spec_price_from_scaled(value.spec_checked_div(adjustment))
        } else {
            spec_price_from_scaled(value.spec_checked_mul(adjustment))
        }
    }
}

/// Turns the outcome of a scaling into a price or an arithmetic error.
pub fn price_from_scaled(scaled: Option<I80F48>) -> (price: Result<I80F48, QuasarError>)
    ensures
        price == spec_price_from_scaled(scaled),
{
    match scaled {
        Some(price) => Ok(price),
        None => Err(QuasarError::new(QuasarErrorCode::MathError, SourceFileId::Oracle, 5)),
    }
}

/// Normalizes the price `mantissa * 10^exponent` that an external feed
/// reports.
pub fn normalize_price(mantissa: i64, exponent: i32) -> (price: Result<I80F48, QuasarError>)
    ensures
        price == spec_normalize_price(mantissa, exponent),
{
    if exponent < -19 || exponent > 19 {
        return Err(QuasarError::new(QuasarErrorCode::MathError, SourceFileId::Oracle, 4));
    }
    let decimals: u32 = if exponent < 0 {
        (-exponent) as u32
    } else {
        exponent as u32
    };
    let power = match checked_pow10(decimals) {
        Some(power) => power,
        None => {
            return Err(QuasarError::new(QuasarErrorCode::MathError, SourceFileId::Oracle, 4));
        },
    };
    let value = I80F48::from_i64(mantissa);
    let adjustment = I80F48::from_u64(power);
    if exponent < 0 {
        price_from_scaled(value.checked_div(adjustment))
    } else {
        price_from_scaled(value.checked_mul(adjustment))
    }
}

/// The exponent by which a reported price is adjusted for a token of
/// `decimals` decimals: the token's decimals are added to the reported
/// exponent and taken off again, so what is left is the reported exponent.
/// `None` where the sum leaves the range of the exponent.
pub fn adjustment_exponent(decimals: u8, expo: i32) -> (adjustment: Option<i32>)
    ensures
        decimals + expo <= i32::MAX ==> adjustment == Some(expo),
        decimals + expo > i32::MAX ==> adjustment is None,
{
    let quote_decimals: i32 = decimals as i32;
    match quote_decimals.checked_add(expo) {
        Some(sum) => sum.checked_sub(quote_decimals),
        None => None,
    }
}

/// The price that [`read_oracle`] gives for account data and its decoding.
pub open spec fn spec_read_oracle(data: Seq<u8>, record: PriceRecord) -> Result<I80F48, QuasarError> {
    match spec_oracle_type(data) {
        OracleType::Pyth => spec_normalize_price(record.price, record.expo),
        OracleType::Stub => Ok(record.stub_price),
        OracleType::Unknown => Err(oracle_error(QuasarErrorCode::UnknownOracle, 6)),
    }
}

/// Resolves the price of a base token from its price source.  The price of
/// an external feed is normalized by the exponent that the feed reports: the
/// token's own decimals enter and leave the adjustment and so cancel.  The
/// price of a stub feed is taken as stored.  A source of unknown kind is an
/// error.
pub fn read_oracle(base_token: &BaseToken, oracle_ai: &AccountView, record: &PriceRecord) -> (price: Result<I80F48, QuasarError>)
    ensures
        price == spec_read_oracle(oracle_ai.data@, *record),
{
    match determine_oracle_type(oracle_ai) {
        OracleType::Pyth => {
            match adjustment_exponent(base_token.decimals, record.expo) {
                Some(exponent) => normalize_price(record.price, exponent),
                None => Err(QuasarError::new(QuasarErrorCode::MathError, SourceFileId::Oracle, 4)),
            }
        },
        OracleType::Stub => Ok(record.stub_price),
        OracleType::Unknown => Err(QuasarError::new(QuasarErrorCode::UnknownOracle, SourceFileId::Oracle, 6)),
    }
}

} // verus!
