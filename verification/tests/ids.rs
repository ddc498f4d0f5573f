use quasar::address::Address;
use quasar::ids::{is_rent_sysvar, is_system_program, is_token_program};
use std::str::FromStr;

fn address_of(text: &str) -> Address {
    Address::new(solana_program::pubkey::Pubkey::from_str(text).unwrap().to_bytes())
}

#[test]
fn system_program_is_recognised() {
    assert!(is_system_program(&Address::new([0u8; 32])));
    assert!(is_system_program(&address_of("11111111111111111111111111111111")));
    assert!(!is_system_program(&address_of("TokenkegQfeZyiNwAJbNbGKPFXCWuBvf9Ss623VQ5DA")));
}

#[test]
fn token_program_is_recognised() {
    let expected: [u8; 32] = [
        6, 221, 246, 225, 215, 101, 161, 147, 217, 203, 225, 70, 206, 235, 121, 172, 28, 180, 133,
        237, 95, 91, 55, 145, 58, 140, 245, 133, 126, 255, 0, 169,
    ];
    assert_eq!(address_of("TokenkegQfeZyiNwAJbNbGKPFXCWuBvf9Ss623VQ5DA").to_bytes(), expected);
    assert!(is_token_program(&Address::new(expected)));
    assert!(!is_token_program(&Address::new([0u8; 32])));
}

#[test]
fn rent_sysvar_is_recognised() {
    let expected: [u8; 32] = [
        6, 167, 213, 23, 25, 44, 92, 81, 33, 140, 201, 76, 61, 74, 241, 127, 88, 218, 238, 8, 155,
        161, 253, 68, 227, 219, 217, 138, 0, 0, 0, 0,
    ];
    assert_eq!(address_of("SysvarRent111111111111111111111111111111111").to_bytes(), expected);
    assert!(is_rent_sysvar(&Address::new(expected)));
    assert!(!is_rent_sysvar(&Address::new([1u8; 32])));
}
