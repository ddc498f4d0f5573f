use quasar::fixed_point::I80F48;
use quasar::instruction::QuasarInstruction;

fn payload(tag: u32, fields: &[u8]) -> Vec<u8> {
    let mut data = tag.to_le_bytes().to_vec();
    data.extend_from_slice(fields);
    data
}

#[test]
fn unpack_init_group() {
    let data = payload(0, &0x1122_3344_5566_7788u64.to_le_bytes());
    assert_eq!(
        QuasarInstruction::unpack(&data),
        Some(QuasarInstruction::InitQuasarGroup { signer_nonce: 0x1122_3344_5566_7788 })
    );
}

#[test]
fn unpack_add_base_token() {
    assert_eq!(QuasarInstruction::unpack(&[1, 0, 0, 0]), Some(QuasarInstruction::AddBaseToken));
}

#[test]
fn unpack_add_leverage_token() {
    let three = I80F48::from_i64(3);
    let data = payload(2, &three.to_bits().to_le_bytes());
    assert_eq!(
        QuasarInstruction::unpack(&data),
        Some(QuasarInstruction::AddLeverageToken { target_leverage: three })
    );
    let minus = I80F48::from_bits(-(3i128 << 47));
    let data = payload(2, &minus.to_bits().to_le_bytes());
    assert_eq!(
        QuasarInstruction::unpack(&data),
        Some(QuasarInstruction::AddLeverageToken { target_leverage: minus })
    );
}

#[test]
fn unpack_mint_leverage_token() {
    let two = I80F48::from_i64(2);
    let mut fields = two.to_bits().to_le_bytes().to_vec();
    fields.extend_from_slice(&1_000_000u64.to_le_bytes());
    assert_eq!(
        QuasarInstruction::unpack(&payload(3, &fields)),
        Some(QuasarInstruction::MintLeverageToken { target_leverage: two, quantity: 1_000_000 })
    );
}

#[test]
fn unpack_redeem_and_test() {
    assert_eq!(
        QuasarInstruction::unpack(&payload(4, &9u64.to_le_bytes())),
        Some(QuasarInstruction::RedeemLeverageToken { quantity: 9 })
    );
    assert_eq!(QuasarInstruction::unpack(&payload(5, &[])), Some(QuasarInstruction::TestCreateAccount));
}

#[test]
fn unknown_tag_does_not_decode() {
    assert_eq!(QuasarInstruction::unpack(&payload(6, &[0; 32])), None);
    assert_eq!(QuasarInstruction::unpack(&payload(u32::MAX, &[])), None);
    assert_eq!(QuasarInstruction::unpack(&[1, 0, 0, 1]), None);
}

#[test]
fn short_payload_does_not_decode() {
    assert_eq!(QuasarInstruction::unpack(&[]), None);
    assert_eq!(QuasarInstruction::unpack(&[0, 0, 0]), None);
    assert_eq!(QuasarInstruction::unpack(&payload(0, &[0; 7])), None);
    assert_eq!(QuasarInstruction::unpack(&payload(2, &[0; 15])), None);
    assert_eq!(QuasarInstruction::unpack(&payload(3, &[0; 23])), None);
    assert_eq!(QuasarInstruction::unpack(&payload(4, &[0; 7])), None);
}

#[test]
fn trailing_bytes_are_ignored() {
    let mut data = payload(0, &5u64.to_le_bytes());
    data.extend_from_slice(&[9, 9, 9]);
    assert_eq!(
        QuasarInstruction::unpack(&data),
        Some(QuasarInstruction::InitQuasarGroup { signer_nonce: 5 })
    );
    assert_eq!(QuasarInstruction::unpack(&[1, 0, 0, 0, 7]), Some(QuasarInstruction::AddBaseToken));
}

#[test]
fn pack_then_unpack_gives_the_instruction() {
    let all = [
        QuasarInstruction::InitQuasarGroup { signer_nonce: u64::MAX },
        QuasarInstruction::AddBaseToken,
        QuasarInstruction::AddLeverageToken { target_leverage: I80F48::from_bits(i128::MIN) },
        QuasarInstruction::MintLeverageToken { target_leverage: I80F48::from_i64(-2), quantity: 17 },
        QuasarInstruction::RedeemLeverageToken { quantity: 0 },
        QuasarInstruction::TestCreateAccount,
    ];
    for instruction in all {
        assert_eq!(QuasarInstruction::unpack(&instruction.pack()), Some(instruction));
    }
}

#[test]
fn pack_layout() {
    assert_eq!(QuasarInstruction::AddBaseToken.pack(), vec![1, 0, 0, 0]);
    assert_eq!(
        QuasarInstruction::InitQuasarGroup { signer_nonce: 258 }.pack(),
        vec![0, 0, 0, 0, 2, 1, 0, 0, 0, 0, 0, 0]
    );
    let packed = QuasarInstruction::MintLeverageToken {
        target_leverage: I80F48::from_i64(1),
        quantity: 3,
    }
    .pack();
    assert_eq!(packed.len(), 28);
    assert_eq!(&packed[..4], &[3, 0, 0, 0]);
    assert_eq!(&packed[4..20], &(1i128 << 48).to_le_bytes());
    assert_eq!(&packed[20..], &3u64.to_le_bytes());
}
