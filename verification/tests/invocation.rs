use quasar::account::AccountView;
use quasar::address::Address;
use quasar::authority::SignerSeeds;
use quasar::error::{ErrorKind, QuasarError, QuasarErrorCode, SourceFileId};
use quasar::invocation::{
    create_account, create_and_initialize_mint_account, deposit_to_mango_account,
    init_mango_account, AccountMeta, CallData, DepositAccounts, Instruction, Invocation,
    MAX_PERMITTED_DATA_LENGTH, MINT_LEN,
};
use solana_program::program_pack::Pack;
use solana_program::pubkey::Pubkey;

fn key(n: u8) -> Address {
    Address::new([n; 32])
}

fn account(key: Address) -> AccountView {
    AccountView { key, owner: Address::new([0; 32]), lamports: 0, rent_minimum: 0, is_signer: false, data: vec![] }
}

fn system_program() -> Address {
    Address::new(solana_program::system_program::id().to_bytes())
}

fn token_program() -> Address {
    Address::new(spl_token::id().to_bytes())
}

fn rent_program() -> Address {
    Address::new(solana_program::sysvar::rent::id().to_bytes())
}

fn helper_error(code: QuasarErrorCode, step: u32) -> QuasarError {
    QuasarError::QuasarErrorCode { quasar_error_code: code, step, source_file_id: SourceFileId::Processor }
}

fn create_account_payload(lamports: u64, space: u64, owner: &Address) -> Vec<u8> {
    let mut data = vec![0u8, 0, 0, 0];
    data.extend_from_slice(&lamports.to_le_bytes());
    data.extend_from_slice(&space.to_le_bytes());
    data.extend_from_slice(&owner.to_bytes());
    data
}

#[test]
fn account_meta_constructors() {
    assert_eq!(AccountMeta::new(key(1), true), AccountMeta { pubkey: key(1), is_signer: true, is_writable: true });
    assert_eq!(
        AccountMeta::new_readonly(key(1), false),
        AccountMeta { pubkey: key(1), is_signer: false, is_writable: false }
    );
}

#[test]
#[allow(deprecated)]
fn sizes_known_to_the_host() {
    assert_eq!(MINT_LEN, spl_token::state::Mint::LEN);
    assert_eq!(MAX_PERMITTED_DATA_LENGTH as u64, 10 * 1024 * 1024);
    assert_eq!(MAX_PERMITTED_DATA_LENGTH as u64, solana_program::system_instruction::MAX_PERMITTED_DATA_LENGTH);
}

#[test]
fn invocation_of_an_instruction() {
    let instruction = Instruction {
        program_id: key(1),
        accounts: vec![AccountMeta::new(key(2), false)],
        data: vec![1, 2, 3],
    };
    let seeds = SignerSeeds { group: key(4), nonce: 5 };
    let call = Invocation::new(instruction, vec![key(2), key(3)], Some(seeds));
    assert_eq!(call.program_id, key(1));
    assert_eq!(call.accounts, vec![AccountMeta::new(key(2), false)]);
    assert_eq!(call.data, CallData::Bytes(vec![1, 2, 3]));
    assert_eq!(call.account_infos, vec![key(2), key(3)]);
    assert_eq!(call.signer, Some(seeds));
}

#[test]
fn create_account_call() {
    let call = create_account(&account(key(1)), &account(key(2)), 10, &account(key(3)), &account(system_program()))
        .unwrap();
    assert_eq!(call.program_id, system_program());
    assert_eq!(
        call.accounts,
        vec![AccountMeta::new(key(1), true), AccountMeta::new(key(2), true)]
    );
    assert_eq!(call.account_infos, vec![system_program(), key(1), key(2)]);
    assert_eq!(call.signer, None);
    assert_eq!(call.data, CallData::Bytes(create_account_payload(960_480, 10, &key(3))));
}

#[test]
fn create_account_is_rent_exempt_by_the_default_rules() {
    for space in [0usize, 10, 82, 165, 1_000_000, MAX_PERMITTED_DATA_LENGTH] {
        let call = create_account(&account(key(1)), &account(key(2)), space, &account(key(3)), &account(system_program()))
            .unwrap();
        let lamports = (128 + space as u64) * 6960;
        assert_eq!(lamports, solana_program::rent::Rent::default().minimum_balance(space));
        assert_eq!(call.data, CallData::Bytes(create_account_payload(lamports, space as u64, &key(3))));
    }
}

#[test]
#[allow(deprecated)]
fn create_account_agrees_with_the_system_interface() {
    let call = create_account(&account(key(1)), &account(key(2)), 82, &account(key(3)), &account(system_program()))
        .unwrap();
    let expected = solana_program::system_instruction::create_account(
        &Pubkey::new_from_array([1; 32]),
        &Pubkey::new_from_array([2; 32]),
        1_461_600,
        82,
        &Pubkey::new_from_array([3; 32]),
    );
    assert_eq!(call.program_id.to_bytes(), expected.program_id.to_bytes());
    assert_eq!(call.data, CallData::Bytes(expected.data));
    assert_eq!(call.accounts.len(), expected.accounts.len());
    for (ours, theirs) in call.accounts.iter().zip(expected.accounts.iter()) {
        assert_eq!(ours.pubkey.to_bytes(), theirs.pubkey.to_bytes());
        assert_eq!(ours.is_signer, theirs.is_signer);
        assert_eq!(ours.is_writable, theirs.is_writable);
    }
}

#[test]
fn create_account_refusals() {
    let e = create_account(&account(key(1)), &account(key(2)), 10, &account(key(3)), &account(key(4)))
        .unwrap_err();
    assert_eq!(e, helper_error(QuasarErrorCode::InvalidAccount, 101));
    assert_eq!(e.kind(), ErrorKind::InvalidInput);
    assert_eq!(
        create_account(&account(key(1)), &account(key(2)), 10, &account(key(3)), &account(token_program())),
        Err(helper_error(QuasarErrorCode::InvalidAccount, 101))
    );
    assert_eq!(
        create_account(
            &account(key(1)),
            &account(key(2)),
            MAX_PERMITTED_DATA_LENGTH + 1,
            &account(key(3)),
            &account(system_program())
        ),
        Err(helper_error(QuasarErrorCode::InvalidAccountSize, 102))
    );
    assert_eq!(
        create_account(&account(key(1)), &account(key(2)), usize::MAX, &account(key(3)), &account(key(4))),
        Err(helper_error(QuasarErrorCode::InvalidAccount, 101))
    );
}

#[test]
fn init_mango_account_call() {
    let seeds = SignerSeeds { group: key(9), nonce: 3 };
    let call = init_mango_account(&account(key(1)), &account(key(2)), &account(key(3)), &account(key(4)), seeds);
    assert_eq!(call.program_id, key(1));
    assert_eq!(
        call.accounts,
        vec![
            AccountMeta::new_readonly(key(2), false),
            AccountMeta::new(key(3), false),
            AccountMeta::new_readonly(key(4), true),
        ]
    );
    assert_eq!(call.data, CallData::InitMarginAccount);
    assert_eq!(call.account_infos, vec![key(1), key(2), key(3), key(4)]);
    assert_eq!(call.signer, Some(seeds));
}

#[test]
fn deposit_call() {
    let accounts = DepositAccounts {
        mango_program: key(1),
        mango_group: key(2),
        mango_account: key(3),
        owner: key(4),
        mango_cache: key(5),
        root_bank: key(6),
        node_bank: key(7),
        vault: key(8),
        token_program: token_program(),
        owner_token_account: key(10),
    };
    let call = deposit_to_mango_account(&accounts, None, 1_000).unwrap();
    assert_eq!(call.program_id, key(1));
    assert_eq!(
        call.accounts,
        vec![
            AccountMeta::new_readonly(key(2), false),
            AccountMeta::new(key(3), false),
            AccountMeta::new_readonly(key(4), true),
            AccountMeta::new_readonly(key(5), false),
            AccountMeta::new_readonly(key(6), false),
            AccountMeta::new(key(7), false),
            AccountMeta::new(key(8), false),
            AccountMeta::new_readonly(token_program(), false),
            AccountMeta::new(key(10), false),
        ]
    );
    assert_eq!(call.data, CallData::Deposit { quantity: 1_000 });
    assert_eq!(
        call.account_infos,
        vec![key(1), key(2), key(3), key(4), key(5), key(6), key(7), key(8), token_program(), key(10)]
    );
    assert_eq!(call.signer, None);
    let seeds = SignerSeeds { group: key(11), nonce: 1 };
    assert_eq!(deposit_to_mango_account(&accounts, Some(seeds), 0).unwrap().signer, Some(seeds));
}

#[test]
fn deposit_checks_the_token_module() {
    let accounts = DepositAccounts {
        mango_program: key(1),
        mango_group: key(2),
        mango_account: key(3),
        owner: key(4),
        mango_cache: key(5),
        root_bank: key(6),
        node_bank: key(7),
        vault: key(8),
        token_program: key(9),
        owner_token_account: key(10),
    };
    assert_eq!(
        deposit_to_mango_account(&accounts, None, 1_000),
        Err(helper_error(QuasarErrorCode::InvalidAccount, 121))
    );
    let system = DepositAccounts { token_program: system_program(), ..accounts };
    assert_eq!(
        deposit_to_mango_account(&system, None, 1_000),
        Err(helper_error(QuasarErrorCode::InvalidAccount, 121))
    );
}

#[test]
fn mint_creation_calls() {
    let seeds = SignerSeeds { group: key(9), nonce: 3 };
    let calls = create_and_initialize_mint_account(
        &account(key(1)),
        &account(key(2)),
        &account(key(3)),
        &account(token_program()),
        &account(system_program()),
        &account(rent_program()),
        seeds,
        6,
    )
    .unwrap();
    assert_eq!(calls.create.program_id, system_program());
    assert_eq!(
        calls.create.accounts,
        vec![AccountMeta::new(key(1), true), AccountMeta::new(key(2), true)]
    );
    assert_eq!(
        calls.create.data,
        CallData::Bytes(create_account_payload(1_461_600, 82, &token_program()))
    );
    assert_eq!(calls.create.account_infos, vec![system_program(), key(1), key(2)]);
    assert_eq!(calls.create.signer, None);

    assert_eq!(calls.initialize.program_id, token_program());
    assert_eq!(
        calls.initialize.accounts,
        vec![AccountMeta::new(key(2), false), AccountMeta::new_readonly(rent_program(), false)]
    );
    let mut payload = vec![0u8, 6];
    payload.extend_from_slice(&[3u8; 32]);
    payload.push(1);
    payload.extend_from_slice(&[3u8; 32]);
    assert_eq!(calls.initialize.data, CallData::Bytes(payload));
    assert_eq!(calls.initialize.account_infos, vec![key(2), token_program(), rent_program()]);
    assert_eq!(calls.initialize.signer, Some(seeds));
}

#[test]
fn mint_initialization_agrees_with_the_token_module() {
    let seeds = SignerSeeds { group: key(9), nonce: 3 };
    let calls = create_and_initialize_mint_account(
        &account(key(1)),
        &account(key(2)),
        &account(key(3)),
        &account(token_program()),
        &account(system_program()),
        &account(rent_program()),
        seeds,
        9,
    )
    .unwrap();
    let authority = Pubkey::new_from_array([3; 32]);
    let expected = spl_token::instruction::initialize_mint(
        &spl_token::id(),
        &Pubkey::new_from_array([2; 32]),
        &authority,
        Some(&authority),
        9,
    )
    .unwrap();
    assert_eq!(calls.initialize.data, CallData::Bytes(expected.data));
    assert_eq!(calls.initialize.program_id.to_bytes(), expected.program_id.to_bytes());
    assert_eq!(calls.initialize.accounts.len(), expected.accounts.len());
    for (ours, theirs) in calls.initialize.accounts.iter().zip(expected.accounts.iter()) {
        assert_eq!(ours.pubkey.to_bytes(), theirs.pubkey.to_bytes());
        assert_eq!(ours.is_signer, theirs.is_signer);
        assert_eq!(ours.is_writable, theirs.is_writable);
    }
}

#[test]
fn mint_creation_checks_the_well_known_identities() {
    let seeds = SignerSeeds { group: key(9), nonce: 3 };
    let a = account(key(1));
    let good = (account(token_program()), account(system_program()), account(rent_program()));
    let bad = account(key(50));
    assert_eq!(
        create_and_initialize_mint_account(&a, &a, &a, &bad, &good.1, &good.2, seeds, 6),
        Err(helper_error(QuasarErrorCode::InvalidAccount, 111))
    );
    assert_eq!(
        create_and_initialize_mint_account(&a, &a, &a, &good.0, &bad, &good.2, seeds, 6),
        Err(helper_error(QuasarErrorCode::InvalidAccount, 112))
    );
    assert_eq!(
        create_and_initialize_mint_account(&a, &a, &a, &good.0, &good.1, &bad, seeds, 6),
        Err(helper_error(QuasarErrorCode::InvalidAccount, 113))
    );
    assert_eq!(
        create_and_initialize_mint_account(&a, &a, &a, &bad, &bad, &bad, seeds, 6),
        Err(helper_error(QuasarErrorCode::InvalidAccount, 111))
    );
}
