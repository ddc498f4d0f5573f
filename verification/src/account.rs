//! Accounts as the handlers see them: plain values, read once from the host.

use vstd::prelude::*;
use crate::address::Address;

verus! {

/// What a handler reads of one account that was handed to an instruction.
#[derive(Clone, Debug, PartialEq, Eq)]
pub struct AccountView {
    /// The account's own address.
    pub key: Address,
    /// The module that owns the account.
    pub owner: Address,
    /// The account's balance.
    pub lamports: u64,
    /// The balance from which the host's rent rules exempt an account of
    /// this account's size.
    pub rent_minimum: u64,
    /// Whether the account signed the request.
    pub is_signer: bool,
    /// The account's data.
    pub data: Vec<u8>,
}

impl AccountView {
    pub open spec fn spec_is_rent_exempt(&self) -> bool {
        self.lamports >= self.rent_minimum
    }

    /// Whether the balance covers the rent exemption.
    #[verifier::when_used_as_spec(spec_is_rent_exempt)]
    pub fn is_rent_exempt(&self) -> (yes: bool)
        ensures
            yes == self.spec_is_rent_exempt(),
    {
        self.lamports >= self.rent_minimum
    }
}

/// Bytes to be stored in an account's data once a handler has succeeded.
#[derive(Clone, Debug, PartialEq, Eq)]
pub struct AccountWrite {
    /// The account to write to.
    pub key: Address,
    /// Offset of the first byte written.
    pub offset: usize,
    /// The bytes.
    pub bytes: Vec<u8>,
}

/// The mathematical content of an [`AccountWrite`].
pub struct AccountWriteView {
    pub key: Address,
    pub offset: usize,
    pub bytes: Seq<u8>,
}

impl View for AccountWrite {
    type V = AccountWriteView;

    open spec fn view(&self) -> AccountWriteView {
        AccountWriteView { key: self.key, offset: self.offset, bytes: self.bytes@ }
    }
}

} // verus!
