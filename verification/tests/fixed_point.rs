use quasar::fixed_point::{I80F48, FRAC_BITS, MAX_INT, MIN_INT, ONE_BITS};

#[test]
fn one_has_48_fractional_bits() {
    assert_eq!(FRAC_BITS, 48);
    assert_eq!(ONE_BITS, 1i128 << 48);
    assert_eq!(MAX_INT, (1i128 << 79) - 1);
    assert_eq!(MIN_INT, -(1i128 << 79));
    assert_eq!(I80F48::zero().to_bits(), 0);
}

#[test]
fn integers_are_represented_exactly() {
    assert_eq!(I80F48::from_i64(50).to_bits(), 50i128 << 48);
    assert_eq!(I80F48::from_i64(-3).to_bits(), -3i128 * (1i128 << 48));
    assert_eq!(I80F48::from_i64(i64::MAX).to_bits(), (i64::MAX as i128) << 48);
    assert_eq!(I80F48::from_i64(i64::MIN).to_bits(), (i64::MIN as i128) * (1i128 << 48));
    assert_eq!(I80F48::from_u64(u64::MAX).to_bits(), (u64::MAX as i128) << 48);
    assert_eq!(I80F48::from_u64(0), I80F48::zero());
}

#[test]
fn from_num_agrees_with_the_fixed_crate() {
    assert_eq!(
        I80F48::from_i64(123_456).to_bits(),
        fixed::types::I80F48::from_num(123_456i64).to_bits()
    );
    assert_eq!(
        I80F48::from_u64(10_000_000_000_000_000_000).to_bits(),
        fixed::types::I80F48::from_num(10_000_000_000_000_000_000u64).to_bits()
    );
}

#[test]
fn bits_round_trip() {
    let x = I80F48::from_bits(0x1234_5678_9abc);
    assert_eq!(x.to_bits(), 0x1234_5678_9abc);
    assert_eq!(x.bits, 0x1234_5678_9abc);
}

#[test]
fn checked_mul_multiplies() {
    let two = I80F48::from_i64(2);
    let three = I80F48::from_i64(3);
    assert_eq!(two.checked_mul(three), Some(I80F48::from_i64(6)));
    let half = I80F48::from_bits(1i128 << 47);
    assert_eq!(three.checked_mul(half), Some(I80F48::from_bits(3i128 << 47)));
    assert_eq!(I80F48::from_i64(-4).checked_mul(half), Some(I80F48::from_i64(-2)));
}

#[test]
fn checked_mul_reports_overflow() {
    let big = I80F48::from_bits(i128::MAX);
    assert_eq!(big.checked_mul(I80F48::from_i64(2)), None);
    assert_eq!(big.checked_mul(I80F48::from_i64(1)), Some(big));
}

#[test]
fn checked_div_divides() {
    let one = I80F48::from_i64(1);
    let two = I80F48::from_i64(2);
    assert_eq!(one.checked_div(two), Some(I80F48::from_bits(1i128 << 47)));
    assert_eq!(I80F48::from_i64(5_000_000_000).checked_div(I80F48::from_i64(100_000_000)),
        Some(I80F48::from_i64(50)));
    assert_eq!(I80F48::from_i64(-9).checked_div(I80F48::from_i64(3)), Some(I80F48::from_i64(-3)));
}

#[test]
fn checked_div_refuses_zero_and_overflow() {
    let one = I80F48::from_i64(1);
    assert_eq!(one.checked_div(I80F48::zero()), None);
    let big = I80F48::from_bits(i128::MAX);
    let half = I80F48::from_bits(1i128 << 47);
    assert_eq!(big.checked_div(half), None);
}
