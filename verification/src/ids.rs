//! The well-known identities of the host's system-level collaborators.

use vstd::prelude::*;
use crate::address::Address;

verus! {

/// Identity of the system module, `11111111111111111111111111111111` in base 58.
pub open spec fn system_program_bytes() -> Seq<u8> {
    seq![
        0u8, 0, 0, 0, 0, 0, 0, 0, 0, 0, 0, 0, 0, 0, 0, 0,
        0, 0, 0, 0, 0, 0, 0, 0, 0, 0, 0, 0, 0, 0, 0, 0,
    ]
}

/// Identity of the fungible-token module,
/// `TokenkegQfeZyiNwAJbNbGKPFXCWuBvf9Ss623VQ5DA` in base 58.
pub open spec fn token_program_bytes() -> Seq<u8> {
    seq![
        6u8, 221, 246, 225, 215, 101, 161, 147, 217, 203, 225, 70, 206, 235, 121, 172,
        28, 180, 133, 237, 95, 91, 55, 145, 58, 140, 245, 133, 126, 255, 0, 169,
    ]
}

/// Identity of the rent rules, `SysvarRent111111111111111111111111111111111` in base 58.
pub open spec fn rent_sysvar_bytes() -> Seq<u8> {
    seq![
        6u8, 167, 213, 23, 25, 44, 92, 81, 33, 140, 201, 76, 61, 74, 241, 127,
        88, 218, 238, 8, 155, 161, 253, 68, 227, 219, 217, 138, 0, 0, 0, 0,
    ]
}

/// Calls `solana_program::system_program::id`.  Trusted: the identity that
/// the crate declares is the 32 zero bytes that its base-58 text stands for.
#[verifier::external_body]
pub(crate) fn system_program_id() -> (id: Address)
    ensures
        id@ == system_program_bytes(),
{
    Address { bytes: solana_program::system_program::id().to_bytes() }
}

/// Calls `spl_token::id`.  Trusted: the identity that the crate declares is
/// the bytes that its base-58 text stands for.
#[verifier::external_body]
pub(crate) fn token_program_id() -> (id: Address)
    ensures
        id@ == token_program_bytes(),
{
    Address { bytes: spl_token::id().to_bytes() }
}

/// Calls `solana_program::sysvar::rent::id`.  Trusted: the identity that the
/// crate declares is the bytes that its base-58 text stands for.
#[verifier::external_body]
pub(crate) fn rent_sysvar_id() -> (id: Address)
    ensures
        id@ == rent_sysvar_bytes(),
{
    Address { bytes: solana_program::sysvar::rent::id().to_bytes() }
}

/// Whether `key` is the system module.
pub fn is_system_program(key: &Address) -> (yes: bool)
    ensures
        yes == (key@ == system_program_bytes()),
{
    let id = system_program_id();
    key.equals(&id)
}

/// Whether `key` is the fungible-token module.
pub fn is_token_program(key: &Address) -> (yes: bool)
    ensures
        yes == (key@ == token_program_bytes()),
{
    let id = token_program_id();
    key.equals(&id)
}

/// Whether `key` is the account that holds the rent rules.
pub fn is_rent_sysvar(key: &Address) -> (yes: bool)
    ensures
        yes == (key@ == rent_sysvar_bytes()),
{
    let id = rent_sysvar_id();
    key.equals(&id)
}

} // verus!
