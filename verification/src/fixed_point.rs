//! Signed fixed-point numbers with 80 integer and 48 fractional bits.
//!
//! A value is carried as its raw two's-complement bits; the number it stands
//! for is `bits / 2^48`.  Products and quotients are computed by the `fixed`
//! crate.

use vstd::prelude::*;

verus! {

/// Number of fractional bits.
pub const FRAC_BITS: u32 = 48;

/// The bits of the number one: `2^48`.
pub const ONE_BITS: i128 = 0x1_0000_0000_0000;

/// Largest integer that has a fixed-point representation: `2^79 - 1`.
pub const MAX_INT: i128 = 0x7fff_ffff_ffff_ffff_ffff;

/// Smallest integer that has a fixed-point representation: `-2^79`.
pub const MIN_INT: i128 = -0x8000_0000_0000_0000_0000;

/// A signed fixed-point number, given by its raw bits.
#[derive(Clone, Copy, Debug, PartialEq, Eq, Structural)]
pub struct I80F48 {
    pub bits: i128,
}

/// The bits of the product that `fixed::types::I80F48::checked_mul` computes
/// for two numbers given by their bits; `None` where it reports overflow.
pub uninterp spec fn checked_mul_bits(lhs: i128, rhs: i128) -> Option<i128>;

/// The bits of the quotient that `fixed::types::I80F48::checked_div` computes
/// for two numbers given by their bits; `None` where it reports a zero
/// divisor or overflow.
pub uninterp spec fn checked_div_bits(lhs: i128, rhs: i128) -> Option<i128>;

/// Calls `fixed::types::I80F48::from_num` on an integer.  Trusted: an integer
/// that fits is represented exactly, so the bits are the integer times `2^48`.
#[verifier::external_body]
fn bits_from_num(value: i128) -> (bits: i128)
    requires
        MIN_INT <= value <= MAX_INT,
    ensures
        bits == value * ONE_BITS,
{
    fixed::types::I80F48::from_num(value).to_bits()
}

/// Calls `fixed::types::I80F48::checked_mul`.  Trusted: the result is a
/// function of the two operands' bits alone.
#[verifier::external_body]
fn bits_checked_mul(lhs: i128, rhs: i128) -> (product: Option<i128>)
    ensures
        product == checked_mul_bits(lhs, rhs),
{
    let lhs = fixed::types::I80F48::from_bits(lhs);
    let rhs = fixed::types::I80F48::from_bits(rhs);
    match lhs.checked_mul(rhs) {
        Some(product) => Some(product.to_bits()),
        None => None,
    }
}

/// Calls `fixed::types::I80F48::checked_div`.  Trusted: the result is a
/// function of the two operands' bits alone, and a zero divisor gives `None`.
#[verifier::external_body]
fn bits_checked_div(lhs: i128, rhs: i128) -> (quotient: Option<i128>)
    ensures
        quotient == checked_div_bits(lhs, rhs),
        rhs == 0 ==> quotient is None,
{
    let lhs = fixed::types::I80F48::from_bits(lhs);
    let rhs = fixed::types::I80F48::from_bits(rhs);
    match lhs.checked_div(rhs) {
        Some(quotient) => Some(quotient.to_bits()),
        None => None,
    }
}

/// Carries an optional bit pattern over to an optional number.
pub open spec fn from_bits_option(bits: Option<i128>) -> Option<I80F48> {
    match bits {
        Some(bits) => Some(I80F48 { bits }),
        None => None,
    }
}

impl I80F48 {
    /// The number zero.
    pub fn zero() -> (number: I80F48)
        ensures
            number.bits == 0,
    {
        I80F48 { bits: 0 }
    }

    pub fn from_bits(bits: i128) -> (number: I80F48)
        ensures
            number.bits == bits,
    {
        I80F48 { bits }
    }

    pub fn to_bits(self) -> (bits: i128)
        ensures
            bits == self.bits,
    {
        self.bits
    }

    /// The fixed-point number that stands for the integer `value`.
    pub open spec fn spec_from_int(value: int) -> I80F48 {
        I80F48 { bits: (value * ONE_BITS) as i128 }
    }

    /// The fixed-point representation of a signed integer.
    pub fn from_i64(value: i64) -> (number: I80F48)
        ensures
            number == Self::spec_from_int(value as int),
            number.bits == value * ONE_BITS,
    {
        I80F48 { bits: bits_from_num(value as i128) }
    }

    /// The fixed-point representation of an unsigned integer.
    pub fn from_u64(value: u64) -> (number: I80F48)
        ensures
            number == Self::spec_from_int(value as int),
            number.bits == value * ONE_BITS,
    {
        I80F48 { bits: bits_from_num(value as i128) }
    }

    pub open spec fn spec_checked_mul(self, rhs: I80F48) -> Option<I80F48> {
        from_bits_option(checked_mul_bits(self.bits, rhs.bits))
    }

    pub open spec fn spec_checked_div(self, rhs: I80F48) -> Option<I80F48> {
        from_bits_option(checked_div_bits(self.bits, rhs.bits))
    }

    /// The product, or `None` on overflow.
    pub fn checked_mul(self, rhs: I80F48) -> (product: Option<I80F48>)
        ensures
            product == self.spec_checked_mul(rhs),
    {
        match bits_checked_mul(self.bits, rhs.bits) {
            Some(bits) => Some(I80F48 { bits }),
            None => None,
        }
    }

    /// The quotient, or `None` on a zero divisor or on overflow.
    pub fn checked_div(self, rhs: I80F48) -> (quotient: Option<I80F48>)
        ensures
            quotient == self.spec_checked_div(rhs),
            rhs.bits == 0 ==> quotient is None,
    {
        match bits_checked_div(self.bits, rhs.bits) {
            Some(bits) => Some(I80F48 { bits }),
            None => None,
        }
    }
}

} // verus!
