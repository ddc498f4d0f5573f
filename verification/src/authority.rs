//! The derived authority: an address without a private key.
//!
//! The authority of a group is derived from the group's own address and a
//! nonce.  Nothing secret is stored: whoever has to act under the authority
//! recomputes the seed material, and whoever has to trust a claimed authority
//! recomputes the address and compares.

use vstd::prelude::*;
use vstd::bytes::{spec_u64_to_le_bytes, u64_to_le_bytes};
use crate::address::Address;
use crate::error::{QuasarError, QuasarErrorCode, SourceFileId};

verus! {

/// The address that `Pubkey::create_program_address` derives for the module
/// `program_id` from the two seeds `group` and `nonce`, or the status code of
/// its refusal.
pub uninterp spec fn program_address(group: Seq<u8>, nonce: Seq<u8>, program_id: Seq<u8>) -> Result<Seq<u8>, u64>;

/// A derivation result with the address replaced by its bytes.
pub open spec fn derived_view(derived: Result<Address, u64>) -> Result<Seq<u8>, u64> {
    match derived {
        Ok(address) => Ok(address@),
        Err(code) => Err(code),
    }
}

/// Calls `solana_program::pubkey::Pubkey::create_program_address` with the
/// seeds `[group, nonce]`.  Trusted: the outcome is a function of the seeds
/// and of the module's identity alone; a refusal is handed back as the status
/// code of the program error that it converts to.
#[verifier::external_body]
fn create_program_address(group: &Address, nonce: &Vec<u8>, program_id: &Address) -> (derived: Result<Address, u64>)
    ensures
        derived_view(derived) == program_address(group@, nonce@, program_id@),
{
    let program_id = solana_program::pubkey::Pubkey::new_from_array(program_id.bytes);
    let seeds: [&[u8]; 2] = [&group.bytes, nonce.as_slice()];
    match solana_program::pubkey::Pubkey::create_program_address(&seeds, &program_id) {
        Ok(key) => Ok(Address { bytes: key.to_bytes() }),
        Err(e) => Err(u64::from(solana_program::program_error::ProgramError::from(e))),
    }
}

/// The seed material of a group's authority.  It holds no secret.
#[derive(Clone, Copy, Debug, PartialEq, Eq)]
pub struct SignerSeeds {
    pub group: Address,
    pub nonce: u64,
}

/// The two seeds of a group's authority: the group's address, then the nonce
/// as eight little-endian bytes.
pub open spec fn spec_signer_seeds(nonce: u64, group: Seq<u8>) -> Seq<Seq<u8>> {
    seq![group, spec_u64_to_le_bytes(nonce)]
}

/// The authority derived for a group, and the error where none exists.
pub open spec fn spec_signer_key(nonce: u64, group: Seq<u8>, program_id: Seq<u8>) -> Result<Seq<u8>, QuasarError> {
    match program_address(group, spec_u64_to_le_bytes(nonce), program_id) {
        Ok(key) => Ok(key),
        Err(code) => Err(QuasarError::ProgramError(code)),
    }
}

/// A derivation result of this crate with the address replaced by its bytes.
pub open spec fn signer_key_view(key: Result<Address, QuasarError>) -> Result<Seq<u8>, QuasarError> {
    match key {
        Ok(address) => Ok(address@),
        Err(e) => Err(e),
    }
}

/// What the comparison of a claimed authority with a derivation result gives.
pub open spec fn spec_check_signer_key(derived: Result<Seq<u8>, QuasarError>, claimed: Seq<u8>, step: u32) -> Result<(), QuasarError> {
    match derived {
        Ok(key) => if key == claimed {
            Ok(())
        } else {
            Err(QuasarError::at(QuasarErrorCode::InvalidSignerKey, SourceFileId::Processor, step))
        },
        Err(e) => Err(e),
    }
}

/// Recomputes the seed material of a group's authority.
pub fn gen_signer_seeds(nonce: u64, group: &Address) -> (seeds: Vec<Vec<u8>>)
    ensures
        seeds@.len() == 2,
        seeds@[0]@ == group@,
        seeds@[1]@ == spec_u64_to_le_bytes(nonce),
        seeds.deep_view() == spec_signer_seeds(nonce, group@),
{
    let mut seeds: Vec<Vec<u8>> = Vec::new();
    seeds.push(group.to_vec());
    seeds.push(u64_to_le_bytes(nonce));
    assert(seeds.deep_view() =~~= spec_signer_seeds(nonce, group@));
    seeds
}

/// Derives the authority of the group at `group` under the module
/// `program_id`.
pub fn gen_signer_key(nonce: u64, group: &Address, program_id: &Address) -> (key: Result<Address, QuasarError>)
    ensures
        signer_key_view(key) == spec_signer_key(nonce, group@, program_id@),
{
    let seeds = gen_signer_seeds(nonce, group);
    match create_program_address(group, &seeds[1], program_id) {
        Ok(key) => Ok(key),
        Err(code) => Err(QuasarError::ProgramError(code)),
    }
}

/// Compares a claimed authority with what a derivation gave.  Succeeds only
/// where the derivation succeeded and gave the claimed address; a failed
/// derivation is passed on, a different address is an invalid signer key.
pub fn check_signer_key(derived: &Result<Address, QuasarError>, claimed: &Address, step: u32) -> (r: Result<(), QuasarError>)
    ensures
        r == spec_check_signer_key(signer_key_view(*derived), claimed@, step),
{
    match derived {
        Ok(key) => {
            if key.equals(claimed) {
                Ok(())
            } else {
                Err(QuasarError::new(QuasarErrorCode::InvalidSignerKey, SourceFileId::Processor, step))
            }
        },
        Err(e) => Err(*e),
    }
}

} // verus!
