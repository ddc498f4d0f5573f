//! Cross-module invocation helpers.
//!
//! A helper validates the fixed collaborator identities it is handed and
//! composes the call; performing the call is the host adapter's part.  The
//! seed material of the derived authority is carried with every call that the
//! authority has to co-sign, and is recomputed by the caller each time.

use vstd::prelude::*;
use crate::account::AccountView;
use crate::address::Address;
use crate::authority::SignerSeeds;
use crate::error::{QuasarError, QuasarErrorCode, SourceFileId};
use crate::ids::{
    is_rent_sysvar, is_system_program, is_token_program, rent_sysvar_bytes, system_program_bytes,
    token_program_bytes,
};

verus! {

/// Largest data size that the host permits for an account.
pub const MAX_PERMITTED_DATA_LENGTH: usize = 10_485_760;

/// Size of a fungible-token mint's data.
pub const MINT_LEN: usize = 82;

/// One entry of a call's ordered account list.
#[derive(Clone, Copy, Debug, PartialEq, Eq)]
pub struct AccountMeta {
    pub pubkey: Address,
    pub is_signer: bool,
    pub is_writable: bool,
}

impl AccountMeta {
    /// An account that the callee may write to.
    pub fn new(pubkey: Address, is_signer: bool) -> (meta: AccountMeta)
        ensures
            meta == (AccountMeta { pubkey, is_signer, is_writable: true }),
    {
        AccountMeta { pubkey, is_signer, is_writable: true }
    }

    /// An account that the callee may only read.
    pub fn new_readonly(pubkey: Address, is_signer: bool) -> (meta: AccountMeta)
        ensures
            meta == (AccountMeta { pubkey, is_signer, is_writable: false }),
    {
        AccountMeta { pubkey, is_signer, is_writable: false }
    }
}

/// An instruction for another module: the callee, its account list and its
/// payload.
#[derive(Clone, Debug, PartialEq, Eq)]
pub struct Instruction {
    pub program_id: Address,
    pub accounts: Vec<AccountMeta>,
    pub data: Vec<u8>,
}

/// The payload of a call.
#[derive(Clone, Debug, PartialEq, Eq)]
pub enum CallData {
    /// The encoded payload.
    Bytes(Vec<u8>),
    /// The margin module's account-opening action, in the margin module's
    /// own encoding.
    InitMarginAccount,
    /// The margin module's deposit action for `quantity` units of
    /// collateral, in the margin module's own encoding.
    Deposit { quantity: u64 },
}

/// The mathematical content of a [`CallData`].
pub enum CallDataView {
    Bytes(Seq<u8>),
    InitMarginAccount,
    Deposit { quantity: u64 },
}

impl View for CallData {
    type V = CallDataView;

    open spec fn view(&self) -> CallDataView {
        match self {
            CallData::Bytes(bytes) => CallDataView::Bytes(bytes@),
            CallData::InitMarginAccount => CallDataView::InitMarginAccount,
            CallData::Deposit { quantity } => CallDataView::Deposit { quantity: *quantity },
        }
    }
}

/// A call into another module, ready to be dispatched.
#[derive(Clone, Debug, PartialEq, Eq)]
pub struct Invocation {
    /// The module to call.
    pub program_id: Address,
    /// The callee's ordered account list.
    pub accounts: Vec<AccountMeta>,
    /// The payload.
    pub data: CallData,
    /// The accounts to hand to the host with the call, in order.
    pub account_infos: Vec<Address>,
    /// Seed material of the derived authority, where it co-signs the call.
    pub signer: Option<SignerSeeds>,
}

/// The mathematical content of an [`Invocation`].
pub struct InvocationView {
    pub program_id: Address,
    pub accounts: Seq<AccountMeta>,
    pub data: CallDataView,
    pub account_infos: Seq<Address>,
    pub signer: Option<SignerSeeds>,
}

impl View for Invocation {
    type V = InvocationView;

    open spec fn view(&self) -> InvocationView {
        InvocationView {
            program_id: self.program_id,
            accounts: self.accounts@,
            data: self.data@,
            account_infos: self.account_infos@,
            signer: self.signer,
        }
    }
}

/// The payload with which `solana_program::system_instruction::create_account`
/// asks the system module for an account of `space` bytes that holds
/// `lamports` and belongs to `owner`.
pub uninterp spec fn create_account_data(lamports: u64, space: u64, owner: Seq<u8>) -> Seq<u8>;

/// The payload with which the token module is asked to initialize a mint.
pub open spec fn initialize_mint_data(decimals: u8, mint_authority: Seq<u8>, freeze_authority: Seq<u8>) -> Seq<u8> {
    seq![0u8, decimals] + mint_authority + seq![1u8] + freeze_authority
}

/// The balance that exempts an account of `space` bytes from rent under the
/// host's default rent rules.
pub open spec fn default_rent_minimum(space: int) -> int {
    (128 + space) * 6960
}

/// Calls `solana_program::rent::Rent::default().minimum_balance`.  Trusted:
/// with the default rules (3480 lamports per byte and year, two years, 128
/// bytes of overhead) every intermediate value for a permitted size is an
/// integer below `2^53`, so the result is the exact product.
#[verifier::external_body]
fn rent_minimum_balance(space: usize) -> (lamports: u64)
    requires
        space <= MAX_PERMITTED_DATA_LENGTH,
    ensures
        lamports == default_rent_minimum(space as int),
{
    solana_program::rent::Rent::default().minimum_balance(space)
}

/// Calls `solana_program::system_instruction::create_account`.  Trusted: the
/// callee is the system module, the account list is the payer and the new
/// account, both writable and signing, and the payload depends on the
/// balance, the size and the owner alone.
#[verifier::external_body]
#[allow(deprecated)]
fn system_create_account(from: &Address, to: &Address, lamports: u64, space: u64, owner: &Address) -> (ix: Instruction)
    ensures
        ix.program_id@ == system_program_bytes(),
        ix.accounts@ == seq![AccountMeta { pubkey: *from, is_signer: true, is_writable: true }, AccountMeta { pubkey: *to, is_signer: true, is_writable: true }],
        ix.data@ == create_account_data(lamports, space, owner@),
{
    let ix = solana_program::system_instruction::create_account(&from.bytes.into(), &to.bytes.into(), lamports, space, &owner.bytes.into());
    Instruction {
        program_id: Address { bytes: ix.program_id.to_bytes() },
        accounts: ix.accounts.iter().map(|m| AccountMeta { pubkey: Address { bytes: m.pubkey.to_bytes() }, is_signer: m.is_signer, is_writable: m.is_writable }).collect(),
        data: ix.data,
    }
}

/// Calls `spl_token::instruction::initialize_mint` with a freeze authority.
/// Trusted: a callee other than the token module is refused; otherwise the
/// callee is the token module, the account list is the writable mint and the
/// read-only rent rules, neither signing, and the payload is the tag 0, the
/// decimals, the mint authority, the marker 1 and the freeze authority.
#[verifier::external_body]
fn token_initialize_mint(token_program: &Address, mint: &Address, mint_authority: &Address, freeze_authority: &Address, decimals: u8) -> (r: Result<Instruction, u64>)
    ensures
        r is Ok <==> token_program@ == token_program_bytes(),
        r matches Ok(ix) ==> {
            &&& ix.program_id == *token_program
            &&& ix.accounts@.len() == 2
            &&& ix.accounts@[0] == (AccountMeta { pubkey: *mint, is_signer: false, is_writable: true })
            &&& ix.accounts@[1].pubkey@ == rent_sysvar_bytes()
            &&& !ix.accounts@[1].is_signer
            &&& !ix.accounts@[1].is_writable
            &&& ix.data@ == initialize_mint_data(decimals, mint_authority@, freeze_authority@)
        },
{
    let freeze = freeze_authority.bytes.into();
    match spl_token::instruction::initialize_mint(&token_program.bytes.into(), &mint.bytes.into(), &mint_authority.bytes.into(), Some(&freeze), decimals) {
        Ok(ix) => Ok(Instruction {
            program_id: Address { bytes: ix.program_id.to_bytes() },
            accounts: ix.accounts.iter().map(|m| AccountMeta { pubkey: Address { bytes: m.pubkey.to_bytes() }, is_signer: m.is_signer, is_writable: m.is_writable }).collect(),
            data: ix.data,
        }),
        Err(e) => Err(u64::from(e)),
    }
}

/// The error that a failed check of a helper raises.
pub open spec fn helper_error(code: QuasarErrorCode, step: u32) -> QuasarError {
    QuasarError::at(code, SourceFileId::Processor, step)
}

impl Invocation {
    /// Makes a call of an instruction: the accounts to hand over with it, and
    /// the seed material where the derived authority co-signs.
    pub fn new(instruction: Instruction, account_infos: Vec<Address>, signer: Option<SignerSeeds>) -> (call: Invocation)
        ensures
            call@ == (InvocationView {
                program_id: instruction.program_id,
                accounts: instruction.accounts@,
                data: CallDataView::Bytes(instruction.data@),
                account_infos: account_infos@,
                signer,
            }),
    {
        Invocation {
            program_id: instruction.program_id,
            accounts: instruction.accounts,
            data: CallData::Bytes(instruction.data),
            account_infos,
            signer,
        }
    }
}

/// The call that [`create_account`] composes.
pub open spec fn spec_create_account_call(signer: Address, new_account: Address, space: usize, owner: Address, system_program: Address) -> InvocationView {
    InvocationView {
        program_id: system_program,
        accounts: seq![
            AccountMeta { pubkey: signer, is_signer: true, is_writable: true },
            AccountMeta { pubkey: new_account, is_signer: true, is_writable: true },
        ],
        data: CallDataView::Bytes(
            create_account_data(default_rent_minimum(space as int) as u64, space as u64, owner@),
        ),
        account_infos: seq![system_program, signer, new_account],
        signer: None,
    }
}

/// The error with which [`create_account`] refuses, if it refuses.
pub open spec fn create_account_refusal(space: usize, system_program: Address) -> Option<QuasarError> {
    if system_program@ != system_program_bytes() {
        Some(helper_error(QuasarErrorCode::InvalidAccount, 101))
    } else if space > MAX_PERMITTED_DATA_LENGTH {
        Some(helper_error(QuasarErrorCode::InvalidAccountSize, 102))
    } else {
        None
    }
}

/// Composes the call that creates a new zero-initialized account of `space`
/// bytes, funded by `signer_ai` with the balance that exempts it from rent,
/// and owned by `owner_ai`.  Refused where `system_program_ai` is not the
/// system module, or where the host permits no account of that size.
pub fn create_account(
    signer_ai: &AccountView,
    new_account_ai: &AccountView,
    space: usize,
    owner_ai: &AccountView,
    system_program_ai: &AccountView,
) -> (r: Result<Invocation, QuasarError>)
    ensures
        match create_account_refusal(space, system_program_ai.key) {
            Some(e) => r == Err::<Invocation, QuasarError>(e),
            None => r is Ok && r->Ok_0@ == spec_create_account_call(
                signer_ai.key,
                new_account_ai.key,
                space,
                owner_ai.key,
                system_program_ai.key,
            ),
        },
{
    if !is_system_program(&system_program_ai.key) {
        return Err(QuasarError::new(QuasarErrorCode::InvalidAccount, SourceFileId::Processor, 101));
    }
    if space > MAX_PERMITTED_DATA_LENGTH {
        return Err(QuasarError::new(QuasarErrorCode::InvalidAccountSize, SourceFileId::Processor, 102));
    }
    let rent = rent_minimum_balance(space);
    let instruction = system_create_account(
        &signer_ai.key,
        &new_account_ai.key,
        rent,
        space as u64,
        &owner_ai.key,
    );
    proof {
        Address::lemma_view_injective(instruction.program_id, system_program_ai.key);
    }
    let mut account_infos: Vec<Address> = Vec::new();
    account_infos.push(system_program_ai.key);
    account_infos.push(signer_ai.key);
    account_infos.push(new_account_ai.key);
    assert(account_infos@ =~= seq![system_program_ai.key, signer_ai.key, new_account_ai.key]);
    Ok(Invocation::new(instruction, account_infos, None))
}

/// The call that [`init_mango_account`] composes.
pub open spec fn spec_init_mango_account_call(mango_program: Address, mango_group: Address, mango_account: Address, owner: Address, signer: SignerSeeds) -> InvocationView {
    InvocationView {
        program_id: mango_program,
        accounts: seq![
            AccountMeta { pubkey: mango_group, is_signer: false, is_writable: false },
            AccountMeta { pubkey: mango_account, is_signer: false, is_writable: true },
            AccountMeta { pubkey: owner, is_signer: true, is_writable: false },
        ],
        data: CallDataView::InitMarginAccount,
        account_infos: seq![mango_program, mango_group, mango_account, owner],
        signer: Some(signer),
    }
}

/// Composes the call that opens a margin account owned by `owner_ai`, which
/// co-signs as the derived authority of `signer_seeds`.
pub fn init_mango_account(
    mango_program_ai: &AccountView,
    mango_group_ai: &AccountView,
    mango_account_ai: &AccountView,
    owner_ai: &AccountView,
    signer_seeds: SignerSeeds,
) -> (call: Invocation)
    ensures
        call@ == spec_init_mango_account_call(
            mango_program_ai.key,
            mango_group_ai.key,
            mango_account_ai.key,
            owner_ai.key,
            signer_seeds,
        ),
{
    let mut accounts: Vec<AccountMeta> = Vec::new();
    accounts.push(AccountMeta::new_readonly(mango_group_ai.key, false));
    accounts.push(AccountMeta::new(mango_account_ai.key, false));
    accounts.push(AccountMeta::new_readonly(owner_ai.key, true));
    let mut account_infos: Vec<Address> = Vec::new();
    account_infos.push(mango_program_ai.key);
    account_infos.push(mango_group_ai.key);
    account_infos.push(mango_account_ai.key);
    account_infos.push(owner_ai.key);
    let call = Invocation {
        program_id: mango_program_ai.key,
        accounts,
        data: CallData::InitMarginAccount,
        account_infos,
        signer: Some(signer_seeds),
    };
    assert(call@.accounts =~= spec_init_mango_account_call(
        mango_program_ai.key,
        mango_group_ai.key,
        mango_account_ai.key,
        owner_ai.key,
        signer_seeds,
    ).accounts);
    assert(call@.account_infos =~= spec_init_mango_account_call(
        mango_program_ai.key,
        mango_group_ai.key,
        mango_account_ai.key,
        owner_ai.key,
        signer_seeds,
    ).account_infos);
    call
}

/// The accounts of a deposit of collateral, by their roles.
#[derive(Clone, Copy, Debug, PartialEq, Eq)]
pub struct DepositAccounts {
    pub mango_program: Address,
    pub mango_group: Address,
    pub mango_account: Address,
    pub owner: Address,
    pub mango_cache: Address,
    pub root_bank: Address,
    pub node_bank: Address,
    pub vault: Address,
    pub token_program: Address,
    pub owner_token_account: Address,
}

/// The call that [`deposit_to_mango_account`] composes.
pub open spec fn spec_deposit_call(a: DepositAccounts, signer: Option<SignerSeeds>, quantity: u64) -> InvocationView {
    InvocationView {
        program_id: a.mango_program,
        accounts: seq![
            AccountMeta { pubkey: a.mango_group, is_signer: false, is_writable: false },
            AccountMeta { pubkey: a.mango_account, is_signer: false, is_writable: true },
            AccountMeta { pubkey: a.owner, is_signer: true, is_writable: false },
            AccountMeta { pubkey: a.mango_cache, is_signer: false, is_writable: false },
            AccountMeta { pubkey: a.root_bank, is_signer: false, is_writable: false },
            AccountMeta { pubkey: a.node_bank, is_signer: false, is_writable: true },
            AccountMeta { pubkey: a.vault, is_signer: false, is_writable: true },
            AccountMeta { pubkey: a.token_program, is_signer: false, is_writable: false },
            AccountMeta { pubkey: a.owner_token_account, is_signer: false, is_writable: true },
        ],
        data: CallDataView::Deposit { quantity },
        account_infos: seq![
            a.mango_program,
            a.mango_group,
            a.mango_account,
            a.owner,
            a.mango_cache,
            a.root_bank,
            a.node_bank,
            a.vault,
            a.token_program,
            a.owner_token_account,
        ],
        signer,
    }
}

/// The error with which [`deposit_to_mango_account`] refuses, if it refuses.
pub open spec fn deposit_refusal(token_program: Address) -> Option<QuasarError> {
    if token_program@ != token_program_bytes() {
        Some(helper_error(QuasarErrorCode::InvalidAccount, 121))
    } else {
        None
    }
}

/// Composes the call that deposits `quantity` units of collateral from the
/// owner's token account into a margin account.  Refused where the token
/// module among the accounts is not the well-known one.
pub fn deposit_to_mango_account(accounts: &DepositAccounts, signer_seeds: Option<SignerSeeds>, quantity: u64) -> (r: Result<Invocation, QuasarError>)
    ensures
        match deposit_refusal(accounts.token_program) {
            Some(e) => r == Err::<Invocation, QuasarError>(e),
            None => r is Ok && r->Ok_0@ == spec_deposit_call(*accounts, signer_seeds, quantity),
        },
{
    if !is_token_program(&accounts.token_program) {
        return Err(QuasarError::new(QuasarErrorCode::InvalidAccount, SourceFileId::Processor, 121));
    }
    let mut metas: Vec<AccountMeta> = Vec::new();
    metas.push(AccountMeta::new_readonly(accounts.mango_group, false));
    metas.push(AccountMeta::new(accounts.mango_account, false));
    metas.push(AccountMeta::new_readonly(accounts.owner, true));
    metas.push(AccountMeta::new_readonly(accounts.mango_cache, false));
    metas.push(AccountMeta::new_readonly(accounts.root_bank, false));
    metas.push(AccountMeta::new(accounts.node_bank, false));
    metas.push(AccountMeta::new(accounts.vault, false));
    metas.push(AccountMeta::new_readonly(accounts.token_program, false));
    metas.push(AccountMeta::new(accounts.owner_token_account, false));
    let mut account_infos: Vec<Address> = Vec::new();
    account_infos.push(accounts.mango_program);
    account_infos.push(accounts.mango_group);
    account_infos.push(accounts.mango_account);
    account_infos.push(accounts.owner);
    account_infos.push(accounts.mango_cache);
    account_infos.push(accounts.root_bank);
    account_infos.push(accounts.node_bank);
    account_infos.push(accounts.vault);
    account_infos.push(accounts.token_program);
    account_infos.push(accounts.owner_token_account);
    let call = Invocation {
        program_id: accounts.mango_program,
        accounts: metas,
        data: CallData::Deposit { quantity },
        account_infos,
        signer: signer_seeds,
    };
    assert(call@.accounts =~= spec_deposit_call(*accounts, signer_seeds, quantity).accounts);
    assert(call@.account_infos =~= spec_deposit_call(*accounts, signer_seeds, quantity).account_infos);
    Ok(call)
}

/// The two calls that create a mint and initialize it.
#[derive(Clone, Debug, PartialEq, Eq)]
pub struct MintCreation {
    /// Creates the mint's account, funded by the payer.
    pub create: Invocation,
    /// Initializes the mint, co-signed by the derived authority.
    pub initialize: Invocation,
}

/// The error with which [`create_and_initialize_mint_account`] refuses, if
/// it refuses.
pub open spec fn mint_creation_refusal(token_program: Address, system_program: Address, rent_program: Address) -> Option<QuasarError> {
    if token_program@ != token_program_bytes() {
        Some(helper_error(QuasarErrorCode::InvalidAccount, 111))
    } else if system_program@ != system_program_bytes() {
        Some(helper_error(QuasarErrorCode::InvalidAccount, 112))
    } else if rent_program@ != rent_sysvar_bytes() {
        Some(helper_error(QuasarErrorCode::InvalidAccount, 113))
    } else {
        None
    }
}

/// The call that initializes a mint under `authority`.
pub open spec fn spec_initialize_mint_call(mint: Address, authority: Address, token_program: Address, rent_program: Address, signer: SignerSeeds, decimals: u8) -> InvocationView {
    InvocationView {
        program_id: token_program,
        accounts: seq![
            AccountMeta { pubkey: mint, is_signer: false, is_writable: true },
            AccountMeta { pubkey: rent_program, is_signer: false, is_writable: false },
        ],
        data: CallDataView::Bytes(initialize_mint_data(decimals, authority@, authority@)),
        account_infos: seq![mint, token_program, rent_program],
        signer: Some(signer),
    }
}

/// Composes the two calls that create a new fungible-token mint: the system
/// module creates the account, sized for a mint, funded by `signer_ai` and
/// owned by the token module; the token module then initializes it with
/// `authority_ai` as both mint authority and freeze authority.  Refused
/// where the token module, the system module or the rent rules are not the
/// well-known ones.
pub fn create_and_initialize_mint_account(
    signer_ai: &AccountView,
    mint_ai: &AccountView,
    authority_ai: &AccountView,
    token_program_ai: &AccountView,
    system_program_ai: &AccountView,
    rent_program_ai: &AccountView,
    signer_seeds: SignerSeeds,
    decimals: u8,
) -> (r: Result<MintCreation, QuasarError>)
    ensures
        match mint_creation_refusal(token_program_ai.key, system_program_ai.key, rent_program_ai.key) {
            Some(e) => r == Err::<MintCreation, QuasarError>(e),
            None => {
                &&& r is Ok
                &&& r->Ok_0.create@ == spec_create_account_call(
                    signer_ai.key,
                    mint_ai.key,
                    MINT_LEN,
                    token_program_ai.key,
                    system_program_ai.key,
                )
                &&& r->Ok_0.initialize@ == spec_initialize_mint_call(
                    mint_ai.key,
                    authority_ai.key,
                    token_program_ai.key,
                    rent_program_ai.key,
                    signer_seeds,
                    decimals,
                )
            },
        },
{
    if !is_token_program(&token_program_ai.key) {
        return Err(QuasarError::new(QuasarErrorCode::InvalidAccount, SourceFileId::Processor, 111));
    }
    if !is_system_program(&system_program_ai.key) {
        return Err(QuasarError::new(QuasarErrorCode::InvalidAccount, SourceFileId::Processor, 112));
    }
    if !is_rent_sysvar(&rent_program_ai.key) {
        return Err(QuasarError::new(QuasarErrorCode::InvalidAccount, SourceFileId::Processor, 113));
    }
    let create = match create_account(signer_ai, mint_ai, MINT_LEN, token_program_ai, system_program_ai) {
        Ok(call) => call,
        Err(e) => {
            return Err(e);
        },
    };
    let instruction = match token_initialize_mint(
        &token_program_ai.key,
        &mint_ai.key,
        &authority_ai.key,
        &authority_ai.key,
        decimals,
    ) {
        Ok(instruction) => instruction,
        Err(code) => {
            return Err(QuasarError::ProgramError(code));
        },
    };
    proof {
        Address::lemma_view_injective(instruction.accounts@[1].pubkey, rent_program_ai.key);
    }
    let mut account_infos: Vec<Address> = Vec::new();
    account_infos.push(mint_ai.key);
    account_infos.push(token_program_ai.key);
    account_infos.push(rent_program_ai.key);
    let initialize = Invocation::new(instruction, account_infos, Some(signer_seeds));
    assert(initialize@.accounts =~= spec_initialize_mint_call(
        mint_ai.key,
        authority_ai.key,
        token_program_ai.key,
        rent_program_ai.key,
        signer_seeds,
        decimals,
    ).accounts);
    assert(initialize@.account_infos =~= spec_initialize_mint_call(
        mint_ai.key,
        authority_ai.key,
        token_program_ai.key,
        rent_program_ai.key,
        signer_seeds,
        decimals,
    ).account_infos);
    Ok(MintCreation { create, initialize })
}

} // verus!
