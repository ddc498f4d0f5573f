use quasar::account::AccountView;
use quasar::address::Address;
use quasar::error::{ErrorKind, QuasarError, QuasarErrorCode, SourceFileId};
use quasar::fixed_point::I80F48;
use quasar::oracle::{
    adjustment_exponent, checked_pow10, determine_oracle_type, init_stub_oracle, normalize_price,
    price_from_scaled, read_oracle, OracleType, PriceRecord, MAX_SCALING_EXPONENT, PYTH_MAGIC,
    STUB_MAGIC,
};
use quasar::state::BaseToken;

fn key(n: u8) -> Address {
    Address::new([n; 32])
}

fn source(owner: Address, data: Vec<u8>) -> AccountView {
    AccountView { key: key(9), owner, lamports: 1, rent_minimum: 0, is_signer: false, data }
}

fn oracle_error(code: QuasarErrorCode, step: u32) -> QuasarError {
    QuasarError::QuasarErrorCode { quasar_error_code: code, step, source_file_id: SourceFileId::Oracle }
}

fn token(decimals: u8) -> BaseToken {
    BaseToken { mint: key(1), decimals, oracle: key(9) }
}

fn record(price: i64, expo: i32) -> PriceRecord {
    PriceRecord { price, expo, stub_price: I80F48::from_i64(7) }
}

#[test]
fn magic_tags_are_little_endian() {
    assert_eq!(STUB_MAGIC.to_le_bytes(), [77, 110, 103, 111]);
    assert_eq!(PYTH_MAGIC.to_le_bytes(), [212, 195, 178, 161]);
    assert_eq!(MAX_SCALING_EXPONENT, 19);
}

#[test]
fn classification_goes_by_the_leading_tag() {
    let mut feed = vec![212u8, 195, 178, 161];
    feed.extend_from_slice(&[0u8; 60]);
    assert_eq!(determine_oracle_type(&source(key(2), feed)), OracleType::Pyth);
    assert_eq!(determine_oracle_type(&source(key(2), vec![77, 110, 103, 111, 5, 5])), OracleType::Stub);
    assert_eq!(determine_oracle_type(&source(key(2), vec![0; 32])), OracleType::Unknown);
    assert_eq!(determine_oracle_type(&source(key(2), vec![212, 195, 178])), OracleType::Unknown);
    assert_eq!(determine_oracle_type(&source(key(2), vec![])), OracleType::Unknown);
    assert_eq!(determine_oracle_type(&source(key(2), vec![77, 110, 103, 79])), OracleType::Unknown);
}

#[test]
fn price_normalization_worked_example() {
    let feed = source(key(2), vec![212, 195, 178, 161, 0, 0, 0, 0]);
    let price = read_oracle(&token(6), &feed, &record(5_000_000_000, -8));
    assert_eq!(price, Ok(I80F48::from_i64(50)));
    assert_eq!(price.unwrap().to_bits(), 50i128 << 48);
    assert_eq!(normalize_price(5_000_000_000, -8), Ok(I80F48::from_i64(50)));
}

#[test]
fn negative_exponent_divides() {
    assert_eq!(normalize_price(1, -1).unwrap().to_bits(), (1i128 << 48) / 10);
    assert_eq!(normalize_price(-250, -2), Ok(I80F48::from_bits(-5i128 << 47)));
    assert_eq!(normalize_price(10_000_000_000_000_000, -19).unwrap().to_bits(), (1i128 << 48) / 1000);
}

#[test]
fn non_negative_exponent_multiplies() {
    assert_eq!(normalize_price(5, 2), Ok(I80F48::from_i64(500)));
    assert_eq!(normalize_price(42, 0), Ok(I80F48::from_i64(42)));
    assert_eq!(normalize_price(-3, 3), Ok(I80F48::from_i64(-3000)));
    assert_eq!(normalize_price(1, 19), Ok(I80F48::from_u64(10_000_000_000_000_000_000)));
}

#[test]
fn scaling_overflow_is_an_arithmetic_error() {
    let e = normalize_price(i64::MAX, 19).unwrap_err();
    assert_eq!(e, oracle_error(QuasarErrorCode::MathError, 5));
    assert_eq!(e.kind(), ErrorKind::Arithmetic);
    assert_eq!(normalize_price(1, 20), Err(oracle_error(QuasarErrorCode::MathError, 4)));
    assert_eq!(normalize_price(1, -20), Err(oracle_error(QuasarErrorCode::MathError, 4)));
    assert_eq!(normalize_price(1, i32::MAX), Err(oracle_error(QuasarErrorCode::MathError, 4)));
    assert_eq!(normalize_price(1, i32::MIN), Err(oracle_error(QuasarErrorCode::MathError, 4)));
}

#[test]
fn price_from_scaled_maps_overflow() {
    assert_eq!(price_from_scaled(Some(I80F48::from_i64(3))), Ok(I80F48::from_i64(3)));
    assert_eq!(price_from_scaled(None), Err(oracle_error(QuasarErrorCode::MathError, 5)));
}

#[test]
fn token_decimals_cancel_in_the_adjustment() {
    assert_eq!(adjustment_exponent(6, -8), Some(-8));
    assert_eq!(adjustment_exponent(0, 5), Some(5));
    assert_eq!(adjustment_exponent(255, i32::MIN), Some(i32::MIN));
    assert_eq!(adjustment_exponent(255, i32::MAX - 255), Some(i32::MAX - 255));
    assert_eq!(adjustment_exponent(255, i32::MAX - 254), None);
    assert_eq!(adjustment_exponent(1, i32::MAX), None);
    let feed = source(key(2), vec![212, 195, 178, 161]);
    for decimals in [0u8, 6, 9, 255] {
        assert_eq!(
            read_oracle(&token(decimals), &feed, &record(5_000_000_000, -8)),
            Ok(I80F48::from_i64(50))
        );
    }
    assert_eq!(
        read_oracle(&token(9), &feed, &record(1, i32::MAX)),
        Err(oracle_error(QuasarErrorCode::MathError, 4))
    );
}

#[test]
fn stub_price_is_read_as_stored() {
    let stub = source(key(2), vec![77, 110, 103, 111, 0, 0, 0, 0]);
    assert_eq!(read_oracle(&token(6), &stub, &record(1, 1)), Ok(I80F48::from_i64(7)));
}

#[test]
fn unknown_source_is_a_typed_error() {
    let other = source(key(2), vec![1, 2, 3, 4, 5]);
    let e = read_oracle(&token(6), &other, &record(1, 1)).unwrap_err();
    assert_eq!(e, oracle_error(QuasarErrorCode::UnknownOracle, 6));
    assert_eq!(e.kind(), ErrorKind::Classification);
}

#[test]
fn powers_of_ten() {
    assert_eq!(checked_pow10(0), Some(1));
    assert_eq!(checked_pow10(1), Some(10));
    assert_eq!(checked_pow10(8), Some(100_000_000));
    assert_eq!(checked_pow10(19), Some(10_000_000_000_000_000_000));
    assert_eq!(checked_pow10(20), None);
    assert_eq!(checked_pow10(u32::MAX), None);
}

#[test]
fn stub_feed_is_marked() {
    let program = key(2);
    let fresh = source(program, vec![0; 32]);
    let write = init_stub_oracle(&fresh, &program).unwrap();
    assert_eq!(write.key, key(9));
    assert_eq!(write.offset, 0);
    assert_eq!(write.bytes, vec![77, 110, 103, 111]);
    assert_eq!(write.bytes, STUB_MAGIC.to_le_bytes().to_vec());
}

#[test]
fn stub_feed_has_to_be_fresh_and_owned() {
    let program = key(2);
    assert_eq!(
        init_stub_oracle(&source(key(3), vec![0; 32]), &program),
        Err(oracle_error(QuasarErrorCode::InvalidOracleOwner, 1))
    );
    assert_eq!(
        init_stub_oracle(&source(program, vec![0; 3]), &program),
        Err(oracle_error(QuasarErrorCode::InvalidAccountSize, 2))
    );
    assert_eq!(
        init_stub_oracle(&source(program, vec![77, 110, 103, 111]), &program),
        Err(oracle_error(QuasarErrorCode::OracleAlreadyInitialized, 3))
    );
    assert_eq!(
        init_stub_oracle(&source(program, vec![0, 0, 0, 1]), &program),
        Err(oracle_error(QuasarErrorCode::OracleAlreadyInitialized, 3))
    );
}
