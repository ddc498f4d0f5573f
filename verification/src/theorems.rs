//! What holds of the handlers on every input.
//!
//! The theorems speak of the handlers' outcomes for every value that the
//! derivation of an authority and the reading of a mint can give; so they
//! hold in particular of what those give on the accounts at hand.

use vstd::prelude::*;
use crate::account::AccountView;
use crate::address::Address;
use crate::authority::spec_signer_key;
use crate::error::{ErrorKind, QuasarError, QuasarErrorCode};
use crate::fixed_point::I80F48;
use crate::instruction::{spec_unpack, QuasarInstruction};
use crate::mint::{spec_decimals_from, unpacked_mint_decimals};
use crate::processor::{
    add_base_token_refusal, add_leverage_token_refusal, new_base_token, new_leverage_token,
    processor_error, spec_add_base_token_with, spec_add_leverage_token_with,
    spec_init_quasar_group_with, spec_step, Event, ProgressView, Stage,
};
use crate::state::{
    base_tokens_distinct, extends, has_base_token, has_leverage_token,
    lemma_push_base_token_distinct, lemma_push_leverage_token_distinct, leverage_tokens_distinct,
    QuasarGroupView, MAX_BASE_TOKENS, MAX_LEVERAGE_TOKENS,
};

verus! {

/// One call of the processor: the accounts and the payload of an
/// instruction, and the event that the call is made with.
pub struct Request {
    pub accounts: Seq<AccountView>,
    pub instruction_data: Seq<u8>,
    pub event: Event,
}

/// The group record after a series of calls of the processor.
pub open spec fn after_requests(program_id: Address, group: QuasarGroupView, requests: Seq<Request>) -> QuasarGroupView
    decreases requests.len(),
{
    if requests.len() == 0 {
        group
    } else {
        let before = after_requests(program_id, group, requests.drop_last());
        let last = requests.last();
        spec_step(program_id, before, last.accounts, last.instruction_data, last.event).group
    }
}

/// The event with which the last call of a leverage token's registration,
/// the initialization of its mint, is reported as successful.
pub open spec fn confirms_mint(event: Event) -> bool {
    event matches Event::Returned { stage: Stage::MintInitialization, outcome: Ok(_) }
}

/// Set-up is not idempotent: on a group that is set up it always fails and
/// changes nothing.  Where the request names its four accounts, the failure
/// is one of authorization or of a broken invariant.
pub proof fn lemma_init_fails_when_initialized(
    program_id: Address,
    group: QuasarGroupView,
    accounts: Seq<AccountView>,
    signer_nonce: u64,
    derived: Result<Seq<u8>, QuasarError>,
)
    requires
        group.meta_data.is_initialized,
    ensures
        ({
            let after = spec_init_quasar_group_with(program_id, group, accounts, signer_nonce, derived);
            &&& after.result is Err
            &&& after.group == group
            &&& accounts.len() >= 4 ==> after.result->Err_0.spec_kind() == ErrorKind::Authorization
                || after.result->Err_0.spec_kind() == ErrorKind::InvariantViolation
        }),
{
}

/// A second set-up fails: whatever a first successful set-up was called
/// with, any set-up that follows it fails and leaves the record as the first
/// one made it.
pub proof fn lemma_second_init_fails(
    program_id: Address,
    group: QuasarGroupView,
    first_accounts: Seq<AccountView>,
    first_nonce: u64,
    first_derived: Result<Seq<u8>, QuasarError>,
    second_program_id: Address,
    second_accounts: Seq<AccountView>,
    second_nonce: u64,
    second_derived: Result<Seq<u8>, QuasarError>,
)
    requires
        spec_init_quasar_group_with(program_id, group, first_accounts, first_nonce, first_derived).result is Ok,
    ensures
        ({
            let first = spec_init_quasar_group_with(
                program_id,
                group,
                first_accounts,
                first_nonce,
                first_derived,
            );
            let second = spec_init_quasar_group_with(
                second_program_id,
                first.group,
                second_accounts,
                second_nonce,
                second_derived,
            );
            &&& first.group.meta_data.is_initialized
            &&& second.result is Err
            &&& second.group == first.group
        }),
{
}

/// A group is set up only with its admin's co-signature and with the
/// authority that is derived from the group's address and the nonce: where
/// the admin has not co-signed, or the derivation did not give the claimed
/// authority, the set-up is rejected and changes nothing.
pub proof fn lemma_init_needs_admin_and_authority(
    program_id: Address,
    group: QuasarGroupView,
    accounts: Seq<AccountView>,
    signer_nonce: u64,
    derived: Result<Seq<u8>, QuasarError>,
)
    requires
        accounts.len() >= 4,
        !accounts[2].is_signer || derived != Ok::<Seq<u8>, QuasarError>(accounts[1].key@),
    ensures
        spec_init_quasar_group_with(program_id, group, accounts, signer_nonce, derived).result is Err,
        spec_init_quasar_group_with(program_id, group, accounts, signer_nonce, derived).group == group,
{
}

/// A successful registration of a base token grows the registry by exactly
/// one entry, which stands at the index that the count had before the call;
/// every earlier slot stays as it was.  A failed one changes nothing.  The
/// invariants hold afterwards either way.
pub proof fn lemma_add_base_token_appends(program_id: Address, group: QuasarGroupView, accounts: Seq<AccountView>, decimals: Result<u8, QuasarError>)
    requires
        group.wf(),
    ensures
        ({
            let after = spec_add_base_token_with(program_id, group, accounts, decimals);
            &&& after.group.wf()
            &&& after.result is Err ==> after.group == group
            &&& after.result is Ok ==> {
                &&& decimals is Ok
                &&& group.base_tokens.len() < MAX_BASE_TOKENS
                &&& !has_base_token(group.base_tokens, accounts[1].key)
                &&& after.group.base_tokens.len() == group.base_tokens.len() + 1
                &&& after.group.base_tokens[group.base_tokens.len() as int] == new_base_token(
                    accounts,
                    decimals->Ok_0,
                )
                &&& extends(after.group.base_tokens, group.base_tokens)
                &&& after.group.leverage_tokens == group.leverage_tokens
            }
        }),
{
    if add_base_token_refusal(program_id, group, accounts, decimals) is None {
        lemma_push_base_token_distinct(group.base_tokens, new_base_token(accounts, decimals->Ok_0));
    }
}

/// An asset that is registered is refused when it is offered again, and a
/// full registry refuses every asset; the record does not change.
pub proof fn lemma_add_base_token_rejects(program_id: Address, group: QuasarGroupView, accounts: Seq<AccountView>, decimals: Result<u8, QuasarError>)
    requires
        accounts.len() >= 4,
        has_base_token(group.base_tokens, accounts[1].key) || group.base_tokens.len()
            >= MAX_BASE_TOKENS,
    ensures
        spec_add_base_token_with(program_id, group, accounts, decimals).result is Err,
        spec_add_base_token_with(program_id, group, accounts, decimals).group == group,
{
}

/// The registration of a leverage token keeps the invariants at every stage
/// and on every outcome of the calls it asks for.  The registry changes only
/// when the last call, the initialization of the mint, has succeeded: then
/// it grows by exactly one entry at the index that the count had before.
pub proof fn lemma_add_leverage_token_appends(
    program_id: Address,
    group: QuasarGroupView,
    accounts: Seq<AccountView>,
    target_leverage: I80F48,
    derived: Result<Seq<u8>, QuasarError>,
    event: Event,
)
    requires
        group.wf(),
    ensures
        ({
            let after = spec_add_leverage_token_with(
                program_id,
                group,
                accounts,
                target_leverage,
                derived,
                event,
            );
            let committed = after.result is Ok && confirms_mint(event);
            &&& after.group.wf()
            &&& !committed ==> after.group == group
            &&& committed ==> {
                &&& after.result == Ok::<ProgressView, QuasarError>(ProgressView::Done { write: None })
                &&& has_base_token(group.base_tokens, accounts[2].key)
                &&& !has_leverage_token(group.leverage_tokens, accounts[2].key, target_leverage)
                &&& after.group.leverage_tokens.len() == group.leverage_tokens.len() + 1
                &&& after.group.leverage_tokens[group.leverage_tokens.len() as int]
                    == new_leverage_token(accounts, target_leverage)
                &&& extends(after.group.leverage_tokens, group.leverage_tokens)
                &&& after.group.base_tokens == group.base_tokens
            }
        }),
{
    if add_leverage_token_refusal(program_id, group, accounts, target_leverage, derived) is None {
        lemma_push_leverage_token_distinct(
            group.leverage_tokens,
            new_leverage_token(accounts, target_leverage),
        );
    }
}

/// A pair of base asset and target leverage that is registered is refused
/// when it is offered again, at whatever stage; so is every pair when the
/// registry is full, and every pair whose base asset is not registered.
pub proof fn lemma_add_leverage_token_rejects(
    program_id: Address,
    group: QuasarGroupView,
    accounts: Seq<AccountView>,
    target_leverage: I80F48,
    derived: Result<Seq<u8>, QuasarError>,
    event: Event,
)
    requires
        accounts.len() >= 12,
        has_leverage_token(group.leverage_tokens, accounts[2].key, target_leverage)
            || group.leverage_tokens.len() >= MAX_LEVERAGE_TOKENS || !has_base_token(
            group.base_tokens,
            accounts[2].key,
        ),
    ensures
        spec_add_leverage_token_with(program_id, group, accounts, target_leverage, derived, event).result is Err,
        spec_add_leverage_token_with(program_id, group, accounts, target_leverage, derived, event).group
            == group,
{
}

/// The registration of a leverage token fails fully: where a call that it
/// asked for has failed, the registration fails, with the callee's status
/// unless an earlier check fails first, and the registry holds no entry for
/// the token.
pub proof fn lemma_add_leverage_token_fails_fully(
    program_id: Address,
    group: QuasarGroupView,
    accounts: Seq<AccountView>,
    target_leverage: I80F48,
    derived: Result<Seq<u8>, QuasarError>,
    stage: Stage,
    code: u64,
)
    ensures
        ({
            let after = spec_add_leverage_token_with(
                program_id,
                group,
                accounts,
                target_leverage,
                derived,
                Event::Returned { stage, outcome: Err(code) },
            );
            &&& after.result is Err
            &&& after.group == group
            &&& add_leverage_token_refusal(program_id, group, accounts, target_leverage, derived) is None
                ==> after.result == Err::<ProgressView, QuasarError>(QuasarError::ProgramError(code))
        }),
{
}

/// The registry is changed by the admin alone: a registration whose admin
/// account has not co-signed, or is not the admin that the record names, is
/// rejected and changes nothing.
pub proof fn lemma_registration_needs_admin(
    program_id: Address,
    group: QuasarGroupView,
    accounts: Seq<AccountView>,
    decimals: Result<u8, QuasarError>,
    target_leverage: I80F48,
    derived: Result<Seq<u8>, QuasarError>,
    event: Event,
)
    ensures
        accounts.len() >= 4 && (!accounts[3].is_signer || accounts[3].key != group.admin_key) ==> {
            &&& spec_add_base_token_with(program_id, group, accounts, decimals).result is Err
            &&& spec_add_base_token_with(program_id, group, accounts, decimals).group == group
        },
        accounts.len() >= 12 && (!accounts[10].is_signer || accounts[10].key != group.admin_key) ==> {
            &&& spec_add_leverage_token_with(
                program_id,
                group,
                accounts,
                target_leverage,
                derived,
                event,
            ).result is Err
            &&& spec_add_leverage_token_with(
                program_id,
                group,
                accounts,
                target_leverage,
                derived,
                event,
            ).group == group
        },
{
}

/// A leverage token is registered only under the group's own authority:
/// where the derivation from the group's address and the stored nonce did
/// not give the address of the authority account, the request is rejected at
/// every stage and changes nothing.
pub proof fn lemma_registration_needs_authority(
    program_id: Address,
    group: QuasarGroupView,
    accounts: Seq<AccountView>,
    target_leverage: I80F48,
    derived: Result<Seq<u8>, QuasarError>,
    event: Event,
)
    requires
        accounts.len() >= 12,
        derived != Ok::<Seq<u8>, QuasarError>(accounts[11].key@),
    ensures
        spec_add_leverage_token_with(program_id, group, accounts, target_leverage, derived, event).result is Err,
        spec_add_leverage_token_with(program_id, group, accounts, target_leverage, derived, event).group
            == group,
{
    Address::lemma_view_injective(accounts[11].key, group.signer_key);
}

/// No call of the processor commits in part: a call that fails leaves the
/// group record as it was, and so does a call that asks for another call.
pub proof fn lemma_only_completion_writes(program_id: Address, group: QuasarGroupView, accounts: Seq<AccountView>, instruction_data: Seq<u8>, event: Event)
    ensures
        ({
            let after = spec_step(program_id, group, accounts, instruction_data, event);
            !(after.result matches Ok(ProgressView::Done { .. })) ==> after.group == group
        }),
{
}

/// A payload that does not decode reaches no handler: the call fails with
/// the decoding error, whatever the accounts and the event.
pub proof fn lemma_undecodable_is_rejected(program_id: Address, group: QuasarGroupView, accounts: Seq<AccountView>, instruction_data: Seq<u8>, event: Event)
    requires
        spec_unpack(instruction_data) is None,
    ensures
        spec_step(program_id, group, accounts, instruction_data, event).result == Err::<
            ProgressView,
            QuasarError,
        >(processor_error(QuasarErrorCode::InvalidInstructionData, 70)),
        spec_step(program_id, group, accounts, instruction_data, event).group == group,
{
}

/// Every call of the processor keeps the registry invariants, and only ever
/// extends the registries at their ends.
pub proof fn lemma_step_keeps_invariants(program_id: Address, group: QuasarGroupView, accounts: Seq<AccountView>, instruction_data: Seq<u8>, event: Event)
    requires
        group.wf(),
    ensures
        ({
            let after = spec_step(program_id, group, accounts, instruction_data, event);
            &&& after.group.wf()
            &&& extends(after.group.base_tokens, group.base_tokens)
            &&& extends(after.group.leverage_tokens, group.leverage_tokens)
        }),
{
    match spec_unpack(instruction_data) {
        Some(QuasarInstruction::AddBaseToken) => {
            lemma_add_base_token_appends(
                program_id,
                group,
                accounts,
                spec_decimals_from(unpacked_mint_decimals(accounts[1].data@)),
            );
        },
        Some(QuasarInstruction::AddLeverageToken { target_leverage }) => {
            lemma_add_leverage_token_appends(
                program_id,
                group,
                accounts,
                target_leverage,
                spec_signer_key(group.signer_nonce, accounts[0].key@, program_id@),
                event,
            );
        },
        _ => {},
    }
}

/// Whatever series of calls is made on a group record that satisfies the
/// invariants, the record satisfies them afterwards: no two populated slots
/// share an asset identity, no two share the pair of base asset and target
/// leverage, both registries are within capacity, and every slot that was
/// populated before the series is still there, at its index and unchanged.
pub proof fn lemma_requests_keep_invariants(program_id: Address, group: QuasarGroupView, requests: Seq<Request>)
    requires
        group.wf(),
    ensures
        after_requests(program_id, group, requests).wf(),
        base_tokens_distinct(after_requests(program_id, group, requests).base_tokens),
        leverage_tokens_distinct(after_requests(program_id, group, requests).leverage_tokens),
        extends(after_requests(program_id, group, requests).base_tokens, group.base_tokens),
        extends(after_requests(program_id, group, requests).leverage_tokens, group.leverage_tokens),
    decreases requests.len(),
{
    if requests.len() > 0 {
        lemma_requests_keep_invariants(program_id, group, requests.drop_last());
        let before = after_requests(program_id, group, requests.drop_last());
        let last = requests.last();
        lemma_step_keeps_invariants(
            program_id,
            before,
            last.accounts,
            last.instruction_data,
            last.event,
        );
    }
}

} // verus!
