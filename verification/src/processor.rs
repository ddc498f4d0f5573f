//! The instruction dispatcher and its handlers.
//!
//! A handler decides; it does not call out.  Where an instruction needs
//! other modules, the handler hands back the next call together with the
//! stage it has reached, and is resumed with the call's outcome.  The group
//! record is written last: only when every call of the instruction has
//! succeeded, and never on a failure.

use vstd::prelude::*;
use crate::account::{AccountView, AccountWrite, AccountWriteView};
use crate::address::Address;
use crate::authority::{
    check_signer_key, gen_signer_key, signer_key_view, spec_check_signer_key, spec_signer_key,
    SignerSeeds,
};
use crate::error::{QuasarError, QuasarErrorCode, SourceFileId};
use crate::fixed_point::I80F48;
use crate::instruction::{spec_unpack, QuasarInstruction};
use crate::invocation::{
    create_account, create_account_refusal, create_and_initialize_mint_account,
    deposit_refusal, deposit_to_mango_account, init_mango_account, mint_creation_refusal,
    spec_create_account_call,
    spec_deposit_call, spec_init_mango_account_call, spec_initialize_mint_call, DepositAccounts,
    Invocation, InvocationView, MINT_LEN,
};
use crate::mint::{mint_decimals, spec_decimals_from, unpacked_mint_decimals};
use crate::oracle::{
    determine_oracle_type, init_stub_oracle, spec_oracle_type, stub_init_refusal, stub_mark,
    OracleType,
};
use crate::state::{
    has_base_token, has_leverage_token, BaseToken, LeverageToken, QuasarGroup, QuasarGroupView,
    LEVERAGE_TOKEN_DECIMALS, MAX_BASE_TOKENS, MAX_LEVERAGE_TOKENS,
};

verus! {

/// Size of the account that the test instruction creates.
pub const TEST_ACCOUNT_SPACE: usize = 10;

/// The call whose outcome a handler is waiting for.
#[derive(Clone, Copy, Debug, PartialEq, Eq, Structural)]
pub enum Stage {
    /// The margin module opens the margin account of a new leverage token.
    MarginAccount,
    /// The system module creates the account of a new leverage token's mint.
    MintAccount,
    /// The token module initializes a new leverage token's mint.
    MintInitialization,
    /// The margin module takes a deposit of collateral.
    Deposit,
    /// The system module creates the test account.
    TestAccount,
}

/// What a handler is called with: the start of an instruction, or the outcome
/// of the call that the handler asked for at `stage`.
#[derive(Clone, Copy, Debug, PartialEq, Eq)]
pub enum Event {
    Begin,
    Returned { stage: Stage, outcome: Result<(), u64> },
}

/// What a handler hands back when it does not fail.
#[derive(Clone, Debug, PartialEq, Eq)]
pub enum Progress {
    /// The instruction is complete.  The group record holds its effect;
    /// `write`, if any, is still to be stored in the account it names.
    Done { write: Option<AccountWrite> },
    /// `call` is to be dispatched, and the handler resumed at `stage` with
    /// the outcome.
    Invoke { call: Invocation, stage: Stage },
}

/// The mathematical content of a [`Progress`].
pub enum ProgressView {
    Done { write: Option<AccountWriteView> },
    Invoke { call: InvocationView, stage: Stage },
}

impl View for Progress {
    type V = ProgressView;

    open spec fn view(&self) -> ProgressView {
        match self {
            Progress::Done { write } => ProgressView::Done {
                write: match write {
                    Some(write) => Some(write@),
                    None => None,
                },
            },
            Progress::Invoke { call, stage } => ProgressView::Invoke { call: call@, stage: *stage },
        }
    }
}

/// A handler's result with its content replaced by the mathematical one.
pub open spec fn result_view(r: Result<Progress, QuasarError>) -> Result<ProgressView, QuasarError> {
    match r {
        Ok(progress) => Ok(progress@),
        Err(e) => Err(e),
    }
}

/// What one call of a handler gives: its result, and the group record as the
/// call leaves it.
pub struct Outcome {
    pub result: Result<ProgressView, QuasarError>,
    pub group: QuasarGroupView,
}

/// The error that a failed check of the processor raises.
pub open spec fn processor_error(code: QuasarErrorCode, step: u32) -> QuasarError {
    QuasarError::at(code, SourceFileId::Processor, step)
}

/// A failed call: the error, and the group record as it was.
pub open spec fn refused(e: QuasarError, group: QuasarGroupView) -> Outcome {
    Outcome { result: Err(e), group }
}

/// A completed instruction without a pending write.
pub open spec fn done(group: QuasarGroupView) -> Outcome {
    Outcome { result: Ok(ProgressView::Done { write: None }), group }
}

/// A request for a call; the group record is as it was.
pub open spec fn invoke(call: InvocationView, stage: Stage, group: QuasarGroupView) -> Outcome {
    Outcome { result: Ok(ProgressView::Invoke { call, stage }), group }
}

/// The error with which a group account is refused, if it is: the account
/// has to be owned by this module and the record has to be set up.
pub open spec fn group_refusal(program_id: Address, group: QuasarGroupView, group_ai: AccountView, step: u32) -> Option<QuasarError> {
    if group_ai.owner != program_id {
        Some(processor_error(QuasarErrorCode::InvalidGroupOwner, step))
    } else if !group.meta_data.is_initialized {
        Some(processor_error(QuasarErrorCode::GroupNotInitialized, step))
    } else {
        None
    }
}

/// The error with which an admin account is refused, if it is: the admin has
/// to have co-signed and to be the admin that the group record names.
pub open spec fn admin_refusal(group: QuasarGroupView, admin_ai: AccountView, step: u32) -> Option<QuasarError> {
    if !admin_ai.is_signer {
        Some(processor_error(QuasarErrorCode::SignerNecessary, step))
    } else if admin_ai.key != group.admin_key {
        Some(processor_error(QuasarErrorCode::InvalidAdminKey, step))
    } else {
        None
    }
}

/// The error with which the set-up of a group is refused, if it is.  The
/// accounts are: the group, the derived authority, the admin, the margin
/// module.
pub open spec fn init_refusal(program_id: Address, group: QuasarGroupView, accounts: Seq<AccountView>, derived: Result<Seq<u8>, QuasarError>) -> Option<QuasarError> {
    if accounts.len() < 4 {
        Some(processor_error(QuasarErrorCode::NotEnoughAccounts, 1))
    } else if accounts[0].owner != program_id {
        Some(processor_error(QuasarErrorCode::InvalidGroupOwner, 2))
    } else if !accounts[0].is_rent_exempt() {
        Some(processor_error(QuasarErrorCode::GroupNotRentExempt, 3))
    } else if group.meta_data.is_initialized {
        Some(processor_error(QuasarErrorCode::GroupAlreadyInitialized, 4))
    } else {
        match spec_check_signer_key(derived, accounts[1].key@, 5) {
            Err(e) => Some(e),
            Ok(_) => if !accounts[2].is_signer {
                Some(processor_error(QuasarErrorCode::SignerNecessary, 6))
            } else {
                None
            },
        }
    }
}

/// What the set-up of a group gives, where `derived` is what the derivation
/// of the group's authority gave.
pub open spec fn spec_init_quasar_group_with(
    program_id: Address,
    group: QuasarGroupView,
    accounts: Seq<AccountView>,
    signer_nonce: u64,
    derived: Result<Seq<u8>, QuasarError>,
) -> Outcome {
    match init_refusal(program_id, group, accounts, derived) {
        Some(e) => refused(e, group),
        None => done(
            group.initialized(accounts[2].key, accounts[1].key, signer_nonce, accounts[3].key),
        ),
    }
}

/// What the set-up of a group gives.
pub open spec fn spec_init_quasar_group(program_id: Address, group: QuasarGroupView, accounts: Seq<AccountView>, signer_nonce: u64) -> Outcome {
    spec_init_quasar_group_with(
        program_id,
        group,
        accounts,
        signer_nonce,
        spec_signer_key(signer_nonce, accounts[0].key@, program_id@),
    )
}

/// Whether the registration of a base token has to initialize its price
/// source as a stub feed.
pub open spec fn needs_stub_init(oracle_ai: AccountView) -> bool {
    spec_oracle_type(oracle_ai.data@) != OracleType::Pyth
}

/// The error with which the registration of a base token is refused, if it
/// is.  The accounts are: the group, the asset's mint, the price source, the
/// admin.
pub open spec fn add_base_token_refusal(program_id: Address, group: QuasarGroupView, accounts: Seq<AccountView>, decimals: Result<u8, QuasarError>) -> Option<QuasarError> {
    if accounts.len() < 4 {
        Some(processor_error(QuasarErrorCode::NotEnoughAccounts, 11))
    } else if group_refusal(program_id, group, accounts[0], 12) is Some {
        group_refusal(program_id, group, accounts[0], 12)
    } else if admin_refusal(group, accounts[3], 13) is Some {
        admin_refusal(group, accounts[3], 13)
    } else if has_base_token(group.base_tokens, accounts[1].key) {
        Some(processor_error(QuasarErrorCode::DuplicateBaseToken, 14))
    } else if needs_stub_init(accounts[2]) && stub_init_refusal(accounts[2], program_id) is Some {
        stub_init_refusal(accounts[2], program_id)
    } else if group.base_tokens.len() >= MAX_BASE_TOKENS {
        Some(processor_error(QuasarErrorCode::BaseTokenRegistryFull, 15))
    } else {
        match decimals {
            Err(e) => Some(e),
            Ok(_) => None,
        }
    }
}

/// The entry that the registration of a base token appends.
pub open spec fn new_base_token(accounts: Seq<AccountView>, decimals: u8) -> BaseToken {
    BaseToken { mint: accounts[1].key, decimals, oracle: accounts[2].key }
}

/// What the registration of a base token gives, where `decimals` is what
/// reading the asset's mint gave.
pub open spec fn spec_add_base_token_with(program_id: Address, group: QuasarGroupView, accounts: Seq<AccountView>, decimals: Result<u8, QuasarError>) -> Outcome {
    match add_base_token_refusal(program_id, group, accounts, decimals) {
        Some(e) => refused(e, group),
        None => Outcome {
            result: Ok(
                ProgressView::Done {
                    write: if needs_stub_init(accounts[2]) {
                        Some(stub_mark(accounts[2].key))
                    } else {
                        None
                    },
                },
            ),
            group: group.with_base_token(new_base_token(accounts, decimals->Ok_0)),
        },
    }
}

/// What the registration of a base token gives.
pub open spec fn spec_add_base_token(program_id: Address, group: QuasarGroupView, accounts: Seq<AccountView>) -> Outcome {
    spec_add_base_token_with(
        program_id,
        group,
        accounts,
        spec_decimals_from(unpacked_mint_decimals(accounts[1].data@)),
    )
}

/// The error with which the registration of a leverage token is refused, if
/// it is, whatever stage it has reached.  The accounts are: the group, the
/// new mint, the base asset's mint, the margin module, the margin group, the
/// new margin account, the margin market, the system module, the token
/// module, the rent rules, the admin, the derived authority.
pub open spec fn add_leverage_token_refusal(
    program_id: Address,
    group: QuasarGroupView,
    accounts: Seq<AccountView>,
    target_leverage: I80F48,
    derived: Result<Seq<u8>, QuasarError>,
) -> Option<QuasarError> {
    if accounts.len() < 12 {
        Some(processor_error(QuasarErrorCode::NotEnoughAccounts, 21))
    } else if group_refusal(program_id, group, accounts[0], 22) is Some {
        group_refusal(program_id, group, accounts[0], 22)
    } else if admin_refusal(group, accounts[10], 23) is Some {
        admin_refusal(group, accounts[10], 23)
    } else if !has_base_token(group.base_tokens, accounts[2].key) {
        Some(processor_error(QuasarErrorCode::BaseTokenNotFound, 24))
    } else if has_leverage_token(group.leverage_tokens, accounts[2].key, target_leverage) {
        Some(processor_error(QuasarErrorCode::DuplicateLeverageToken, 25))
    } else if group.leverage_tokens.len() >= MAX_LEVERAGE_TOKENS {
        Some(processor_error(QuasarErrorCode::LeverageTokenRegistryFull, 26))
    } else if accounts[11].key != group.signer_key {
        Some(processor_error(QuasarErrorCode::InvalidSignerKey, 27))
    } else {
        match spec_check_signer_key(derived, group.signer_key@, 28) {
            Err(e) => Some(e),
            Ok(_) => None,
        }
    }
}

/// The entry that the registration of a leverage token appends.
pub open spec fn new_leverage_token(accounts: Seq<AccountView>, target_leverage: I80F48) -> LeverageToken {
    LeverageToken {
        mint: accounts[1].key,
        base_token_mint: accounts[2].key,
        target_leverage,
        mango_account: accounts[5].key,
        mango_perp_market: accounts[6].key,
    }
}

/// The seed material under which a group's authority co-signs.
pub open spec fn group_seeds(group: QuasarGroupView, group_ai: AccountView) -> SignerSeeds {
    SignerSeeds { group: group_ai.key, nonce: group.signer_nonce }
}

/// What the registration of a leverage token gives at each stage, once the
/// request has passed its checks.
pub open spec fn add_leverage_token_progress(group: QuasarGroupView, accounts: Seq<AccountView>, target_leverage: I80F48, event: Event) -> Outcome {
    let seeds = group_seeds(group, accounts[0]);
    match event {
        Event::Begin => invoke(
            spec_init_mango_account_call(
                accounts[3].key,
                accounts[4].key,
                accounts[5].key,
                accounts[11].key,
                seeds,
            ),
            Stage::MarginAccount,
            group,
        ),
        Event::Returned { stage, outcome: Err(code) } => refused(QuasarError::ProgramError(code), group),
        Event::Returned { stage: Stage::MarginAccount, outcome: Ok(_) } => match mint_creation_refusal(
            accounts[8].key,
            accounts[7].key,
            accounts[9].key,
        ) {
            Some(e) => refused(e, group),
            None => invoke(
                spec_create_account_call(
                    accounts[10].key,
                    accounts[1].key,
                    MINT_LEN,
                    accounts[8].key,
                    accounts[7].key,
                ),
                Stage::MintAccount,
                group,
            ),
        },
        Event::Returned { stage: Stage::MintAccount, outcome: Ok(_) } => match mint_creation_refusal(
            accounts[8].key,
            accounts[7].key,
            accounts[9].key,
        ) {
            Some(e) => refused(e, group),
            None => invoke(
                spec_initialize_mint_call(
                    accounts[1].key,
                    accounts[11].key,
                    accounts[8].key,
                    accounts[9].key,
                    seeds,
                    LEVERAGE_TOKEN_DECIMALS,
                ),
                Stage::MintInitialization,
                group,
            ),
        },
        Event::Returned { stage: Stage::MintInitialization, outcome: Ok(_) } => done(
            group.with_leverage_token(new_leverage_token(accounts, target_leverage)),
        ),
        Event::Returned { stage, outcome: Ok(_) } => refused(
            processor_error(QuasarErrorCode::InvalidStage, 29),
            group,
        ),
    }
}

/// What the registration of a leverage token gives, where `derived` is what
/// the derivation of the group's authority gave.
pub open spec fn spec_add_leverage_token_with(
    program_id: Address,
    group: QuasarGroupView,
    accounts: Seq<AccountView>,
    target_leverage: I80F48,
    derived: Result<Seq<u8>, QuasarError>,
    event: Event,
) -> Outcome {
    match add_leverage_token_refusal(program_id, group, accounts, target_leverage, derived) {
        Some(e) => refused(e, group),
        None => add_leverage_token_progress(group, accounts, target_leverage, event),
    }
}

/// What the registration of a leverage token gives.
pub open spec fn spec_add_leverage_token(program_id: Address, group: QuasarGroupView, accounts: Seq<AccountView>, target_leverage: I80F48, event: Event) -> Outcome {
    spec_add_leverage_token_with(
        program_id,
        group,
        accounts,
        target_leverage,
        spec_signer_key(group.signer_nonce, accounts[0].key@, program_id@),
        event,
    )
}

/// The accounts of a deposit, picked from the accounts of the instruction
/// that mints a leverage token: the group, the base asset's mint, the margin
/// module, the margin group, the margin account, the depositor, the margin
/// cache, the root bank, the node bank, the vault, the token module, the
/// depositor's token account.
pub open spec fn spec_deposit_accounts(accounts: Seq<AccountView>) -> DepositAccounts {
    DepositAccounts {
        mango_program: accounts[2].key,
        mango_group: accounts[3].key,
        mango_account: accounts[4].key,
        owner: accounts[5].key,
        mango_cache: accounts[6].key,
        root_bank: accounts[7].key,
        node_bank: accounts[8].key,
        vault: accounts[9].key,
        token_program: accounts[10].key,
        owner_token_account: accounts[11].key,
    }
}

/// What the instruction that mints a leverage token gives: the deposit of
/// the collateral is asked for, and once it has succeeded the instruction
/// fails, because the legs that follow the deposit have no design yet.  The
/// group record never changes.
pub open spec fn spec_mint_leverage_token(program_id: Address, group: QuasarGroupView, accounts: Seq<AccountView>, quantity: u64, event: Event) -> Outcome {
    if accounts.len() < 12 {
        refused(processor_error(QuasarErrorCode::NotEnoughAccounts, 41), group)
    } else if group_refusal(program_id, group, accounts[0], 42) is Some {
        refused(group_refusal(program_id, group, accounts[0], 42)->Some_0, group)
    } else {
        match event {
            Event::Begin => match deposit_refusal(accounts[10].key) {
                Some(e) => refused(e, group),
                None => invoke(
                    spec_deposit_call(spec_deposit_accounts(accounts), None, quantity),
                    Stage::Deposit,
                    group,
                ),
            },
            Event::Returned { stage, outcome: Err(code) } => refused(
                QuasarError::ProgramError(code),
                group,
            ),
            Event::Returned { stage: Stage::Deposit, outcome: Ok(_) } => spec_not_implemented(group, 44),
            Event::Returned { stage, outcome: Ok(_) } => refused(
                processor_error(QuasarErrorCode::InvalidStage, 43),
                group,
            ),
        }
    }
}

/// What the test instruction gives.  The accounts are: the payer, the new
/// account's owner, the new account, the system module.  The group record
/// never changes.
pub open spec fn spec_test_create_account(group: QuasarGroupView, accounts: Seq<AccountView>, event: Event) -> Outcome {
    if accounts.len() < 4 {
        refused(processor_error(QuasarErrorCode::NotEnoughAccounts, 51), group)
    } else {
        match event {
            Event::Begin => match create_account_refusal(TEST_ACCOUNT_SPACE, accounts[3].key) {
                Some(e) => refused(e, group),
                None => invoke(
                    spec_create_account_call(
                        accounts[0].key,
                        accounts[2].key,
                        TEST_ACCOUNT_SPACE,
                        accounts[1].key,
                        accounts[3].key,
                    ),
                    Stage::TestAccount,
                    group,
                ),
            },
            Event::Returned { stage, outcome: Err(code) } => refused(
                QuasarError::ProgramError(code),
                group,
            ),
            Event::Returned { stage: Stage::TestAccount, outcome: Ok(_) } => done(group),
            Event::Returned { stage, outcome: Ok(_) } => refused(
                processor_error(QuasarErrorCode::InvalidStage, 52),
                group,
            ),
        }
    }
}

/// What a declared action without a complete design gives: an error, never
/// a silent success.
pub open spec fn spec_not_implemented(group: QuasarGroupView, step: u32) -> Outcome {
    refused(processor_error(QuasarErrorCode::NotImplemented, step), group)
}

/// What a decoded instruction gives.
pub open spec fn spec_dispatch(program_id: Address, group: QuasarGroupView, accounts: Seq<AccountView>, instruction: QuasarInstruction, event: Event) -> Outcome {
    match instruction {
        QuasarInstruction::InitQuasarGroup { signer_nonce } => if event is Begin {
            spec_init_quasar_group(program_id, group, accounts, signer_nonce)
        } else {
            refused(processor_error(QuasarErrorCode::InvalidStage, 71), group)
        },
        QuasarInstruction::AddBaseToken => if event is Begin {
            spec_add_base_token(program_id, group, accounts)
        } else {
            refused(processor_error(QuasarErrorCode::InvalidStage, 72), group)
        },
        QuasarInstruction::AddLeverageToken { target_leverage } => spec_add_leverage_token(
            program_id,
            group,
            accounts,
            target_leverage,
            event,
        ),
        QuasarInstruction::MintLeverageToken { target_leverage, quantity } => spec_mint_leverage_token(
            program_id,
            group,
            accounts,
            quantity,
            event,
        ),
        QuasarInstruction::RedeemLeverageToken { quantity } => spec_not_implemented(group, 61),
        QuasarInstruction::TestCreateAccount => spec_test_create_account(group, accounts, event),
    }
}

/// What an encoded instruction gives: a payload that does not decode is an
/// error and reaches no handler.
pub open spec fn spec_step(program_id: Address, group: QuasarGroupView, accounts: Seq<AccountView>, instruction_data: Seq<u8>, event: Event) -> Outcome {
    match spec_unpack(instruction_data) {
        None => refused(processor_error(QuasarErrorCode::InvalidInstructionData, 70), group),
        Some(instruction) => spec_dispatch(program_id, group, accounts, instruction, event),
    }
}

fn check_group(program_id: &Address, group: &QuasarGroup, group_ai: &AccountView, step: u32) -> (r: Result<(), QuasarError>)
    ensures
        match group_refusal(*program_id, group@, *group_ai, step) {
            Some(e) => r == Err::<(), QuasarError>(e),
            None => r == Ok::<(), QuasarError>(()),
        },
{
    if !group_ai.owner.equals(program_id) {
        return Err(QuasarError::new(QuasarErrorCode::InvalidGroupOwner, SourceFileId::Processor, step));
    }
    if !group.is_initialized() {
        return Err(QuasarError::new(QuasarErrorCode::GroupNotInitialized, SourceFileId::Processor, step));
    }
    Ok(())
}

fn check_admin(group: &QuasarGroup, admin_ai: &AccountView, step: u32) -> (r: Result<(), QuasarError>)
    ensures
        match admin_refusal(group@, *admin_ai, step) {
            Some(e) => r == Err::<(), QuasarError>(e),
            None => r == Ok::<(), QuasarError>(()),
        },
{
    if !admin_ai.is_signer {
        return Err(QuasarError::new(QuasarErrorCode::SignerNecessary, SourceFileId::Processor, step));
    }
    if !admin_ai.key.equals(&group.admin_key()) {
        return Err(QuasarError::new(QuasarErrorCode::InvalidAdminKey, SourceFileId::Processor, step));
    }
    Ok(())
}

/// The instruction processor.
pub struct Processor;

impl Processor {
    /// Starts an instruction on the group record `group`, which the caller
    /// has read from the first account where the instruction names a group.
    /// The payload is decoded and the instruction's handler run up to its
    /// first call into another module, or to its end.
    pub fn process(program_id: &Address, group: &mut QuasarGroup, accounts: &[AccountView], instruction_data: &[u8]) -> (r: Result<Progress, QuasarError>)
        ensures
            final(group).wf(),
            result_view(r) == spec_step(
                *program_id,
                old(group)@,
                accounts@,
                instruction_data@,
                Event::Begin,
            ).result,
            final(group)@ == spec_step(
                *program_id,
                old(group)@,
                accounts@,
                instruction_data@,
                Event::Begin,
            ).group,
    {
        proof {
            use_type_invariant(&*group);
        }
        Self::step(program_id, group, accounts, instruction_data, Event::Begin)
    }

    /// Resumes an instruction with the outcome of the call that its handler
    /// asked for at `stage`: `Ok` where the call succeeded, the callee's
    /// status code where it failed.
    pub fn resume(
        program_id: &Address,
        group: &mut QuasarGroup,
        accounts: &[AccountView],
        instruction_data: &[u8],
        stage: Stage,
        outcome: Result<(), u64>,
    ) -> (r: Result<Progress, QuasarError>)
        ensures
            final(group).wf(),
            result_view(r) == spec_step(
                *program_id,
                old(group)@,
                accounts@,
                instruction_data@,
                Event::Returned { stage, outcome },
            ).result,
            final(group)@ == spec_step(
                *program_id,
                old(group)@,
                accounts@,
                instruction_data@,
                Event::Returned { stage, outcome },
            ).group,
    {
        proof {
            use_type_invariant(&*group);
        }
        Self::step(program_id, group, accounts, instruction_data, Event::Returned { stage, outcome })
    }

    /// Decodes the payload and runs the instruction's handler on `event`.
    pub fn step(program_id: &Address, group: &mut QuasarGroup, accounts: &[AccountView], instruction_data: &[u8], event: Event) -> (r: Result<Progress, QuasarError>)
        ensures
            final(group).wf(),
            result_view(r) == spec_step(*program_id, old(group)@, accounts@, instruction_data@, event).result,
            final(group)@ == spec_step(*program_id, old(group)@, accounts@, instruction_data@, event).group,
    {
        proof {
            use_type_invariant(&*group);
        }
        match QuasarInstruction::unpack(instruction_data) {
            None => Err(QuasarError::new(QuasarErrorCode::InvalidInstructionData, SourceFileId::Processor, 70)),
            Some(instruction) => Self::dispatch(program_id, group, accounts, &instruction, event),
        }
    }

    /// Runs the handler of a decoded instruction on `event`.
    pub fn dispatch(program_id: &Address, group: &mut QuasarGroup, accounts: &[AccountView], instruction: &QuasarInstruction, event: Event) -> (r: Result<Progress, QuasarError>)
        ensures
            final(group).wf(),
            result_view(r) == spec_dispatch(*program_id, old(group)@, accounts@, *instruction, event).result,
            final(group)@ == spec_dispatch(*program_id, old(group)@, accounts@, *instruction, event).group,
    {
        proof {
            use_type_invariant(&*group);
        }
        match instruction {
            QuasarInstruction::InitQuasarGroup { signer_nonce } => {
                match event {
                    Event::Begin => Self::init_quasar_group(program_id, group, accounts, *signer_nonce),
                    Event::Returned { .. } => Err(QuasarError::new(QuasarErrorCode::InvalidStage, SourceFileId::Processor, 71)),
                }
            },
            QuasarInstruction::AddBaseToken => {
                match event {
                    Event::Begin => Self::add_base_token(program_id, group, accounts),
                    Event::Returned { .. } => Err(QuasarError::new(QuasarErrorCode::InvalidStage, SourceFileId::Processor, 72)),
                }
            },
            QuasarInstruction::AddLeverageToken { target_leverage } => {
                Self::add_leverage_token(program_id, group, accounts, *target_leverage, event)
            },
            QuasarInstruction::MintLeverageToken { target_leverage, quantity } => {
                Self::mint_leverage_token(program_id, group, accounts, *target_leverage, *quantity, event)
            },
            QuasarInstruction::RedeemLeverageToken { quantity } => {
                Self::redeem_leverage_token(program_id, group, accounts, *quantity)
            },
            QuasarInstruction::TestCreateAccount => {
                Self::test_create_account(program_id, group, accounts, event)
            },
        }
    }

    /// Sets a group up: the group's account has to be owned by this module,
    /// exempt from rent and not set up yet, the claimed authority has to be
    /// the one derived from the group's address and the nonce, and the admin
    /// has to have co-signed.
    pub fn init_quasar_group(program_id: &Address, group: &mut QuasarGroup, accounts: &[AccountView], signer_nonce: u64) -> (r: Result<Progress, QuasarError>)
        ensures
            final(group).wf(),
            result_view(r) == spec_init_quasar_group(*program_id, old(group)@, accounts@, signer_nonce).result,
            final(group)@ == spec_init_quasar_group(*program_id, old(group)@, accounts@, signer_nonce).group,
    {
        proof {
            use_type_invariant(&*group);
        }
        if accounts.len() < 4 {
            return Err(QuasarError::new(QuasarErrorCode::NotEnoughAccounts, SourceFileId::Processor, 1));
        }
        let derived = gen_signer_key(signer_nonce, &accounts[0].key, program_id);
        Self::init_quasar_group_with(program_id, group, accounts, signer_nonce, &derived)
    }

    /// Sets a group up, given what the derivation of the group's authority
    /// gave.
    pub fn init_quasar_group_with(
        program_id: &Address,
        group: &mut QuasarGroup,
        accounts: &[AccountView],
        signer_nonce: u64,
        derived: &Result<Address, QuasarError>,
    ) -> (r: Result<Progress, QuasarError>)
        ensures
            final(group).wf(),
            result_view(r) == spec_init_quasar_group_with(
                *program_id,
                old(group)@,
                accounts@,
                signer_nonce,
                signer_key_view(*derived),
            ).result,
            final(group)@ == spec_init_quasar_group_with(
                *program_id,
                old(group)@,
                accounts@,
                signer_nonce,
                signer_key_view(*derived),
            ).group,
    {
        proof {
            use_type_invariant(&*group);
        }
        if accounts.len() < 4 {
            return Err(QuasarError::new(QuasarErrorCode::NotEnoughAccounts, SourceFileId::Processor, 1));
        }
        let quasar_group_ai = &accounts[0];
        let signer_ai = &accounts[1];
        let admin_ai = &accounts[2];
        let mango_program_ai = &accounts[3];
        if !quasar_group_ai.owner.equals(program_id) {
            return Err(QuasarError::new(QuasarErrorCode::InvalidGroupOwner, SourceFileId::Processor, 2));
        }
        if !quasar_group_ai.is_rent_exempt() {
            return Err(QuasarError::new(QuasarErrorCode::GroupNotRentExempt, SourceFileId::Processor, 3));
        }
        if group.is_initialized() {
            return Err(
                QuasarError::new(QuasarErrorCode::GroupAlreadyInitialized, SourceFileId::Processor, 4),
            );
        }
        match check_signer_key(derived, &signer_ai.key, 5) {
            Err(e) => {
                return Err(e);
            },
            Ok(_) => {},
        }
        if !admin_ai.is_signer {
            return Err(QuasarError::new(QuasarErrorCode::SignerNecessary, SourceFileId::Processor, 6));
        }
        match group.initialize(admin_ai.key, signer_ai.key, signer_nonce, mango_program_ai.key) {
            Err(e) => Err(e),
            Ok(_) => Ok(Progress::Done { write: None }),
        }
    }

    /// Registers a collateral asset.  Only the admin may; an asset is
    /// registered once; a price source that is no external feed has to be a
    /// fresh account of this module and is marked as a stub feed.
    pub fn add_base_token(program_id: &Address, group: &mut QuasarGroup, accounts: &[AccountView]) -> (r: Result<Progress, QuasarError>)
        ensures
            final(group).wf(),
            result_view(r) == spec_add_base_token(*program_id, old(group)@, accounts@).result,
            final(group)@ == spec_add_base_token(*program_id, old(group)@, accounts@).group,
    {
        proof {
            use_type_invariant(&*group);
        }
        if accounts.len() < 4 {
            return Err(QuasarError::new(QuasarErrorCode::NotEnoughAccounts, SourceFileId::Processor, 11));
        }
        let decimals = mint_decimals(&accounts[1]);
        Self::add_base_token_with(program_id, group, accounts, decimals)
    }

    /// Registers a collateral asset, given what reading the asset's mint
    /// gave.
    pub fn add_base_token_with(program_id: &Address, group: &mut QuasarGroup, accounts: &[AccountView], decimals: Result<u8, QuasarError>) -> (r: Result<Progress, QuasarError>)
        ensures
            final(group).wf(),
            result_view(r) == spec_add_base_token_with(*program_id, old(group)@, accounts@, decimals).result,
            final(group)@ == spec_add_base_token_with(*program_id, old(group)@, accounts@, decimals).group,
    {
        proof {
            use_type_invariant(&*group);
        }
        if accounts.len() < 4 {
            return Err(QuasarError::new(QuasarErrorCode::NotEnoughAccounts, SourceFileId::Processor, 11));
        }
        let quasar_group_ai = &accounts[0];
        let mint_ai = &accounts[1];
        let oracle_ai = &accounts[2];
        let admin_ai = &accounts[3];
        match check_group(program_id, group, quasar_group_ai, 12) {
            Err(e) => {
                return Err(e);
            },
            Ok(_) => {},
        }
        match check_admin(group, admin_ai, 13) {
            Err(e) => {
                return Err(e);
            },
            Ok(_) => {},
        }
        if group.find_base_token_index(&mint_ai.key).is_some() {
            return Err(QuasarError::new(QuasarErrorCode::DuplicateBaseToken, SourceFileId::Processor, 14));
        }
        let write = match determine_oracle_type(oracle_ai) {
            OracleType::Pyth => None,
            OracleType::Stub | OracleType::Unknown => {
                match init_stub_oracle(oracle_ai, program_id) {
                    Ok(write) => Some(write),
                    Err(e) => {
                        return Err(e);
                    },
                }
            },
        };
        if group.num_base_tokens() >= MAX_BASE_TOKENS {
            return Err(
                QuasarError::new(QuasarErrorCode::BaseTokenRegistryFull, SourceFileId::Processor, 15),
            );
        }
        let decimals = match decimals {
            Ok(decimals) => decimals,
            Err(e) => {
                return Err(e);
            },
        };
        let token = BaseToken { mint: mint_ai.key, decimals, oracle: oracle_ai.key };
        match group.add_base_token(token) {
            Err(e) => Err(e),
            Ok(_) => Ok(Progress::Done { write }),
        }
    }

    /// Registers a leveraged instrument, in four stages: the checks and the
    /// opening of the margin account, the creation of the mint's account,
    /// the initialization of the mint, and the entry in the registry.  Every
    /// stage repeats the checks on the record as it then is.  Only the admin
    /// may; the base asset has to be registered; a pair of base asset and
    /// target leverage is registered once; the supplied authority has to be
    /// the stored one, and the stored one the one derived from the group's
    /// address and nonce.
    pub fn add_leverage_token(program_id: &Address, group: &mut QuasarGroup, accounts: &[AccountView], target_leverage: I80F48, event: Event) -> (r: Result<Progress, QuasarError>)
        ensures
            final(group).wf(),
            result_view(r) == spec_add_leverage_token(
                *program_id,
                old(group)@,
                accounts@,
                target_leverage,
                event,
            ).result,
            final(group)@ == spec_add_leverage_token(
                *program_id,
                old(group)@,
                accounts@,
                target_leverage,
                event,
            ).group,
    {
        proof {
            use_type_invariant(&*group);
        }
        if accounts.len() < 12 {
            return Err(QuasarError::new(QuasarErrorCode::NotEnoughAccounts, SourceFileId::Processor, 21));
        }
        let derived = gen_signer_key(group.signer_nonce(), &accounts[0].key, program_id);
        Self::add_leverage_token_with(program_id, group, accounts, target_leverage, &derived, event)
    }

    /// Registers a leveraged instrument, given what the derivation of the
    /// group's authority gave.
    pub fn add_leverage_token_with(
        program_id: &Address,
        group: &mut QuasarGroup,
        accounts: &[AccountView],
        target_leverage: I80F48,
        derived: &Result<Address, QuasarError>,
        event: Event,
    ) -> (r: Result<Progress, QuasarError>)
        ensures
            final(group).wf(),
            result_view(r) == spec_add_leverage_token_with(
                *program_id,
                old(group)@,
                accounts@,
                target_leverage,
                signer_key_view(*derived),
                event,
            ).result,
            final(group)@ == spec_add_leverage_token_with(
                *program_id,
                old(group)@,
                accounts@,
                target_leverage,
                signer_key_view(*derived),
                event,
            ).group,
    {
        proof {
            use_type_invariant(&*group);
        }
        if accounts.len() < 12 {
            return Err(QuasarError::new(QuasarErrorCode::NotEnoughAccounts, SourceFileId::Processor, 21));
        }
        let quasar_group_ai = &accounts[0];
        let mint_ai = &accounts[1];
        let base_token_mint_ai = &accounts[2];
        let mango_program_ai = &accounts[3];
        let mango_group_ai = &accounts[4];
        let mango_account_ai = &accounts[5];
        let mango_perp_market_ai = &accounts[6];
        let system_program_ai = &accounts[7];
        let token_program_ai = &accounts[8];
        let rent_program_ai = &accounts[9];
        let admin_ai = &accounts[10];
        let pda_ai = &accounts[11];
        match check_group(program_id, group, quasar_group_ai, 22) {
            Err(e) => {
                return Err(e);
            },
            Ok(_) => {},
        }
        match check_admin(group, admin_ai, 23) {
            Err(e) => {
                return Err(e);
            },
            Ok(_) => {},
        }
        if group.find_base_token_index(&base_token_mint_ai.key).is_none() {
            return Err(QuasarError::new(QuasarErrorCode::BaseTokenNotFound, SourceFileId::Processor, 24));
        }
        if group.find_leverage_token_index(&base_token_mint_ai.key, target_leverage).is_some() {
            return Err(QuasarError::new(QuasarErrorCode::DuplicateLeverageToken, SourceFileId::Processor, 25));
        }
        if group.num_leverage_tokens() >= MAX_LEVERAGE_TOKENS {
            return Err(QuasarError::new(QuasarErrorCode::LeverageTokenRegistryFull, SourceFileId::Processor, 26));
        }
        let signer_key = group.signer_key();
        if !pda_ai.key.equals(&signer_key) {
            return Err(QuasarError::new(QuasarErrorCode::InvalidSignerKey, SourceFileId::Processor, 27));
        }
        match check_signer_key(derived, &signer_key, 28) {
            Err(e) => {
                return Err(e);
            },
            Ok(_) => {},
        }
        let signer_seeds = SignerSeeds { group: quasar_group_ai.key, nonce: group.signer_nonce() };
        match event {
            Event::Begin => {
                let call = init_mango_account(
                    mango_program_ai,
                    mango_group_ai,
                    mango_account_ai,
                    pda_ai,
                    signer_seeds,
                );
                Ok(Progress::Invoke { call, stage: Stage::MarginAccount })
            },
            Event::Returned { stage, outcome: Err(code) } => Err(QuasarError::ProgramError(code)),
            Event::Returned { stage: Stage::MarginAccount, outcome: Ok(_) } => {
                match create_and_initialize_mint_account(
                    admin_ai,
                    mint_ai,
                    pda_ai,
                    token_program_ai,
                    system_program_ai,
                    rent_program_ai,
                    signer_seeds,
                    LEVERAGE_TOKEN_DECIMALS,
                ) {
                    Err(e) => Err(e),
                    Ok(calls) => Ok(Progress::Invoke { call: calls.create, stage: Stage::MintAccount }),
                }
            },
            Event::Returned { stage: Stage::MintAccount, outcome: Ok(_) } => {
                match create_and_initialize_mint_account(
                    admin_ai,
                    mint_ai,
                    pda_ai,
                    token_program_ai,
                    system_program_ai,
                    rent_program_ai,
                    signer_seeds,
                    LEVERAGE_TOKEN_DECIMALS,
                ) {
                    Err(e) => Err(e),
                    Ok(calls) => Ok(
                        Progress::Invoke { call: calls.initialize, stage: Stage::MintInitialization },
                    ),
                }
            },
            Event::Returned { stage: Stage::MintInitialization, outcome: Ok(_) } => {
                let token = LeverageToken {
                    mint: mint_ai.key,
                    base_token_mint: base_token_mint_ai.key,
                    target_leverage,
                    mango_account: mango_account_ai.key,
                    mango_perp_market: mango_perp_market_ai.key,
                };
                match group.add_leverage_token(token) {
                    Err(e) => Err(e),
                    Ok(_) => Ok(Progress::Done { write: None }),
                }
            },
            Event::Returned { stage, outcome: Ok(_) } => Err(QuasarError::new(QuasarErrorCode::InvalidStage, SourceFileId::Processor, 29)),
        }
    }

    /// Asks for the deposit of `quantity` units of collateral into a margin
    /// account, on the depositor's own authority.  This is the first leg of
    /// minting a leverage token and the only one that is defined: the target
    /// leverage does not enter it, and once the deposit has succeeded the
    /// instruction fails as not implemented rather than report a mint that
    /// did not happen.
    pub fn mint_leverage_token(
        program_id: &Address,
        group: &QuasarGroup,
        accounts: &[AccountView],
        target_leverage: I80F48,
        quantity: u64,
        event: Event,
    ) -> (r: Result<Progress, QuasarError>)
        ensures
            result_view(r) == spec_mint_leverage_token(*program_id, group@, accounts@, quantity, event).result,
            group@ == spec_mint_leverage_token(*program_id, group@, accounts@, quantity, event).group,
    {
        if accounts.len() < 12 {
            return Err(QuasarError::new(QuasarErrorCode::NotEnoughAccounts, SourceFileId::Processor, 41));
        }
        match check_group(program_id, group, &accounts[0], 42) {
            Err(e) => {
                return Err(e);
            },
            Ok(_) => {},
        }
        match event {
            Event::Begin => {
                let deposit = DepositAccounts {
                    mango_program: accounts[2].key,
                    mango_group: accounts[3].key,
                    mango_account: accounts[4].key,
                    owner: accounts[5].key,
                    mango_cache: accounts[6].key,
                    root_bank: accounts[7].key,
                    node_bank: accounts[8].key,
                    vault: accounts[9].key,
                    token_program: accounts[10].key,
                    owner_token_account: accounts[11].key,
                };
                match deposit_to_mango_account(&deposit, None, quantity) {
                    Err(e) => Err(e),
                    Ok(call) => Ok(Progress::Invoke { call, stage: Stage::Deposit }),
                }
            },
            Event::Returned { stage, outcome: Err(code) } => Err(QuasarError::ProgramError(code)),
            Event::Returned { stage: Stage::Deposit, outcome: Ok(_) } => Err(
                QuasarError::new(QuasarErrorCode::NotImplemented, SourceFileId::Processor, 44),
            ),
            Event::Returned { stage, outcome: Ok(_) } => Err(QuasarError::new(QuasarErrorCode::InvalidStage, SourceFileId::Processor, 43)),
        }
    }

    /// Redeeming a leverage token is declared, but its design is not
    /// complete: the call fails and changes nothing.
    pub fn redeem_leverage_token(program_id: &Address, group: &QuasarGroup, accounts: &[AccountView], quantity: u64) -> (r: Result<Progress, QuasarError>)
        ensures
            result_view(r) == spec_not_implemented(group@, 61).result,
    {
        Err(QuasarError::new(QuasarErrorCode::NotImplemented, SourceFileId::Processor, 61))
    }

    /// Rebalancing a perpetual position is declared, but its design is not
    /// complete: the call fails and changes nothing.
    pub fn rebalance_perp_contract(program_id: &Address, group: &QuasarGroup, accounts: &[AccountView], quantity: u64) -> (r: Result<Progress, QuasarError>)
        ensures
            result_view(r) == spec_not_implemented(group@, 62).result,
    {
        Err(QuasarError::new(QuasarErrorCode::NotImplemented, SourceFileId::Processor, 62))
    }

    /// Creates a small account, funded by the payer and owned by the given
    /// owner; for tests.
    pub fn test_create_account(program_id: &Address, group: &QuasarGroup, accounts: &[AccountView], event: Event) -> (r: Result<Progress, QuasarError>)
        ensures
            result_view(r) == spec_test_create_account(group@, accounts@, event).result,
            group@ == spec_test_create_account(group@, accounts@, event).group,
    {
        if accounts.len() < 4 {
            return Err(QuasarError::new(QuasarErrorCode::NotEnoughAccounts, SourceFileId::Processor, 51));
        }
        let signer_ai = &accounts[0];
        let owner_ai = &accounts[1];
        let new_account_ai = &accounts[2];
        let system_program_ai = &accounts[3];
        match event {
            Event::Begin => {
                match create_account(
                    signer_ai,
                    new_account_ai,
                    TEST_ACCOUNT_SPACE,
                    owner_ai,
                    system_program_ai,
                ) {
                    Err(e) => Err(e),
                    Ok(call) => Ok(Progress::Invoke { call, stage: Stage::TestAccount }),
                }
            },
            Event::Returned { stage, outcome: Err(code) } => Err(QuasarError::ProgramError(code)),
            Event::Returned { stage: Stage::TestAccount, outcome: Ok(_) } => Ok(
                Progress::Done { write: None },
            ),
            Event::Returned { stage, outcome: Ok(_) } => Err(QuasarError::new(QuasarErrorCode::InvalidStage, SourceFileId::Processor, 52)),
        }
    }
}

} // verus!
