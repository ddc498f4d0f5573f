use quasar::account::AccountView;
use quasar::address::Address;
use quasar::error::QuasarError;
use quasar::mint::{decimals_from, mint_decimals};
use solana_program::program_error::ProgramError;
use solana_program::program_option::COption;
use solana_program::program_pack::Pack;
use solana_program::pubkey::Pubkey;

fn mint_account(data: Vec<u8>) -> AccountView {
    AccountView {
        key: Address::new([1; 32]),
        owner: Address::new(spl_token::id().to_bytes()),
        lamports: 1_461_600,
        rent_minimum: 1_461_600,
        is_signer: false,
        data,
    }
}

fn packed(decimals: u8, is_initialized: bool) -> Vec<u8> {
    let mint = spl_token::state::Mint {
        mint_authority: COption::Some(Pubkey::new_from_array([3; 32])),
        supply: 1_000,
        decimals,
        is_initialized,
        freeze_authority: COption::None,
    };
    let mut data = vec![0u8; spl_token::state::Mint::LEN];
    mint.pack_into_slice(&mut data);
    data
}

#[test]
fn decimals_of_an_initialized_mint() {
    assert_eq!(mint_decimals(&mint_account(packed(6, true))), Ok(6));
    assert_eq!(mint_decimals(&mint_account(packed(9, true))), Ok(9));
    assert_eq!(mint_decimals(&mint_account(packed(0, true))), Ok(0));
}

#[test]
fn uninitialized_mint_is_refused() {
    assert_eq!(
        mint_decimals(&mint_account(packed(6, false))),
        Err(QuasarError::ProgramError(u64::from(ProgramError::UninitializedAccount)))
    );
    assert_eq!(
        mint_decimals(&mint_account(vec![0; 82])),
        Err(QuasarError::ProgramError(u64::from(ProgramError::UninitializedAccount)))
    );
}

#[test]
fn malformed_mint_is_refused() {
    let invalid = QuasarError::ProgramError(u64::from(ProgramError::InvalidAccountData));
    assert_eq!(mint_decimals(&mint_account(vec![])), Err(invalid));
    assert_eq!(mint_decimals(&mint_account(vec![0; 81])), Err(invalid));
    let mut long = packed(6, true);
    long.push(0);
    assert_eq!(mint_decimals(&mint_account(long)), Err(invalid));
    let mut bad_flag = packed(6, true);
    bad_flag[45] = 2;
    assert_eq!(mint_decimals(&mint_account(bad_flag)), Err(invalid));
}

#[test]
fn decimals_from_passes_both_outcomes_on() {
    assert_eq!(decimals_from(Ok(4)), Ok(4));
    assert_eq!(decimals_from(Err(12)), Err(QuasarError::ProgramError(12)));
}
