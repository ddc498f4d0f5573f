use quasar::account::AccountView;
use quasar::address::{Address, ADDRESS_LEN};

#[test]
fn address_holds_its_bytes() {
    let mut bytes = [0u8; 32];
    for (i, b) in bytes.iter_mut().enumerate() {
        *b = i as u8;
    }
    let address = Address::new(bytes);
    assert_eq!(ADDRESS_LEN, 32);
    assert_eq!(address.to_bytes(), bytes);
    assert_eq!(address.bytes, bytes);
    assert_eq!(address.to_vec(), bytes.to_vec());
    assert_eq!(Address::zero().to_bytes(), [0u8; 32]);
}

#[test]
fn addresses_are_compared_byte_by_byte() {
    let a = Address::new([7; 32]);
    assert!(a.equals(&Address::new([7; 32])));
    assert!(!a.equals(&Address::zero()));
    for i in 0..32 {
        let mut bytes = [7u8; 32];
        bytes[i] = 8;
        assert!(!a.equals(&Address::new(bytes)));
        assert!(!Address::new(bytes).equals(&a));
    }
}

#[test]
fn rent_exemption_compares_balance_and_minimum() {
    let account = |lamports: u64, rent_minimum: u64| AccountView {
        key: Address::zero(),
        owner: Address::zero(),
        lamports,
        rent_minimum,
        is_signer: false,
        data: vec![],
    };
    assert!(account(10, 10).is_rent_exempt());
    assert!(account(11, 10).is_rent_exempt());
    assert!(!account(9, 10).is_rent_exempt());
    assert!(account(0, 0).is_rent_exempt());
    assert!(account(u64::MAX, u64::MAX).is_rent_exempt());
    assert!(!account(0, u64::MAX).is_rent_exempt());
}
