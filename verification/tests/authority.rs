use quasar::address::Address;
use quasar::authority::{check_signer_key, gen_signer_key, gen_signer_seeds};
use quasar::error::{ErrorKind, QuasarError, QuasarErrorCode, SourceFileId};
use solana_program::program_error::ProgramError;
use solana_program::pubkey::Pubkey;

fn key(n: u8) -> Address {
    Address::new([n; 32])
}

fn derive(nonce: u64, group: &Address, program: &Address) -> Result<Pubkey, solana_program::pubkey::PubkeyError> {
    Pubkey::create_program_address(
        &[&group.to_bytes(), &nonce.to_le_bytes()],
        &Pubkey::new_from_array(program.to_bytes()),
    )
}

fn valid_nonce(group: &Address, program: &Address) -> u64 {
    let mut nonce: u64 = 0;
    while derive(nonce, group, program).is_err() {
        nonce += 1;
    }
    nonce
}

fn invalid_nonce(group: &Address, program: &Address) -> u64 {
    let mut nonce: u64 = 0;
    while derive(nonce, group, program).is_ok() {
        nonce += 1;
    }
    nonce
}

#[test]
fn seeds_are_group_then_nonce() {
    let seeds = gen_signer_seeds(0x0102_0304_0506_0708, &key(5));
    assert_eq!(seeds.len(), 2);
    assert_eq!(seeds[0], vec![5u8; 32]);
    assert_eq!(seeds[1], vec![8u8, 7, 6, 5, 4, 3, 2, 1]);
}

#[test]
fn signer_key_is_the_program_address() {
    let group = key(5);
    let program = key(6);
    let nonce = valid_nonce(&group, &program);
    let expected = derive(nonce, &group, &program).unwrap();
    let derived = gen_signer_key(nonce, &group, &program).unwrap();
    assert_eq!(derived.to_bytes(), expected.to_bytes());
    assert_ne!(derived, group);
    assert_ne!(derived, program);
}

#[test]
fn signer_key_depends_on_every_input() {
    let group = key(5);
    let program = key(6);
    let nonce = valid_nonce(&group, &program);
    let derived = gen_signer_key(nonce, &group, &program).unwrap();
    let other_group = key(7);
    let other_nonce = valid_nonce(&other_group, &program);
    assert_ne!(gen_signer_key(other_nonce, &other_group, &program).unwrap(), derived);
    let other_program = key(8);
    let third_nonce = valid_nonce(&group, &other_program);
    assert_ne!(gen_signer_key(third_nonce, &group, &other_program).unwrap(), derived);
}

#[test]
fn seeds_without_an_address_are_refused() {
    let group = key(5);
    let program = key(6);
    let nonce = invalid_nonce(&group, &program);
    let e = gen_signer_key(nonce, &group, &program).unwrap_err();
    assert_eq!(e, QuasarError::ProgramError(u64::from(ProgramError::InvalidSeeds)));
    assert_eq!(e.kind(), ErrorKind::Collaborator);
}

#[test]
fn claimed_authority_is_compared() {
    let mismatch = QuasarError::QuasarErrorCode {
        quasar_error_code: QuasarErrorCode::InvalidSignerKey,
        step: 5,
        source_file_id: SourceFileId::Processor,
    };
    assert_eq!(check_signer_key(&Ok(key(1)), &key(1), 5), Ok(()));
    assert_eq!(check_signer_key(&Ok(key(1)), &key(2), 5), Err(mismatch));
    assert_eq!(mismatch.kind(), ErrorKind::Authorization);
    assert_eq!(
        check_signer_key(&Err(QuasarError::ProgramError(77)), &key(1), 5),
        Err(QuasarError::ProgramError(77))
    );
}
