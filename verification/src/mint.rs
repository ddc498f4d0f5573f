//! Reading the mint of a collateral asset.

use vstd::prelude::*;
use crate::account::AccountView;
use crate::error::QuasarError;

verus! {

/// The decimals of the initialized mint that `spl_token::state::Mint::unpack`
/// reads from account data, or the status code of its refusal.
pub uninterp spec fn unpacked_mint_decimals(data: Seq<u8>) -> Result<u8, u64>;

/// Calls `spl_token::state::Mint::unpack` and picks the decimals.  Trusted:
/// the outcome is a function of the data alone; a refusal is handed back as
/// the status code of the program error.
#[verifier::external_body]
fn unpack_mint_decimals(data: &Vec<u8>) -> (r: Result<u8, u64>)
    ensures
        r == unpacked_mint_decimals(data@),
{
    match <spl_token::state::Mint as solana_program::program_pack::Pack>::unpack(data) {
        Ok(mint) => Ok(mint.decimals),
        Err(e) => Err(u64::from(e)),
    }
}

/// What reading the decimals gives, for each outcome of the unpacking.
pub open spec fn spec_decimals_from(unpacked: Result<u8, u64>) -> Result<u8, QuasarError> {
    match unpacked {
        Ok(decimals) => Ok(decimals),
        Err(code) => Err(QuasarError::ProgramError(code)),
    }
}

/// Passes the decimals on, and a refusal as the collaborator's error.
pub fn decimals_from(unpacked: Result<u8, u64>) -> (r: Result<u8, QuasarError>)
    ensures
        r == spec_decimals_from(unpacked),
{
    match unpacked {
        Ok(decimals) => Ok(decimals),
        Err(code) => Err(QuasarError::ProgramError(code)),
    }
}

/// The decimal precision of the asset whose mint `mint_ai` is.
pub fn mint_decimals(mint_ai: &AccountView) -> (r: Result<u8, QuasarError>)
    ensures
        r == spec_decimals_from(unpacked_mint_decimals(mint_ai.data@)),
{
    decimals_from(unpack_mint_decimals(&mint_ai.data))
}

} // verus!
