//! Typed, source-located failures.
//!
//! Every check in the crate fails fast with a [`QuasarError`]: either a code
//! of this crate together with the component and the step that raised it, or
//! the status that a collaborator handed back, passed on unchanged.

use vstd::prelude::*;

verus! {

/// The component that raised an error.
#[derive(Clone, Copy, Debug, PartialEq, Eq, Structural)]
pub enum SourceFileId {
    Processor,
    State,
    Oracle,
    Utils,
    Instruction,
}

/// The broad classes of failure.
#[derive(Clone, Copy, Debug, PartialEq, Eq, Structural)]
pub enum ErrorKind {
    /// Wrong owner, missing or invalid admin co-signature, derived-authority mismatch.
    Authorization,
    /// Duplicate asset, duplicate leverage pair, registry full, group already set up.
    InvariantViolation,
    /// A referenced base token has no registry entry.
    NotFound,
    /// A price source of unknown type.
    Classification,
    /// Overflow or underflow while scaling a price.
    Arithmetic,
    /// A malformed request: undecodable instruction, too few accounts, wrong well-known identity.
    InvalidInput,
    /// A declared action whose design is not complete.
    Unimplemented,
    /// A failure surfaced unchanged from another module.
    Collaborator,
}

/// The stable code of a failed check.
#[derive(Clone, Copy, Debug, PartialEq, Eq, Structural)]
pub enum QuasarErrorCode {
    InvalidGroupOwner,
    GroupNotRentExempt,
    GroupAlreadyInitialized,
    GroupNotInitialized,
    InvalidSignerKey,
    SignerNecessary,
    InvalidAdminKey,
    InvalidOracleOwner,
    OracleAlreadyInitialized,
    DuplicateBaseToken,
    DuplicateLeverageToken,
    BaseTokenRegistryFull,
    LeverageTokenRegistryFull,
    BaseTokenNotFound,
    UnknownOracle,
    MathError,
    InvalidAccount,
    InvalidAccountSize,
    InvalidInstructionData,
    NotEnoughAccounts,
    InvalidStage,
    NotImplemented,
}

impl QuasarErrorCode {
    pub open spec fn spec_kind(self) -> ErrorKind {
        match self {
            QuasarErrorCode::InvalidGroupOwner => ErrorKind::Authorization,
            QuasarErrorCode::GroupNotRentExempt => ErrorKind::Authorization,
            QuasarErrorCode::GroupAlreadyInitialized => ErrorKind::InvariantViolation,
            QuasarErrorCode::GroupNotInitialized => ErrorKind::Authorization,
            QuasarErrorCode::InvalidSignerKey => ErrorKind::Authorization,
            QuasarErrorCode::SignerNecessary => ErrorKind::Authorization,
            QuasarErrorCode::InvalidAdminKey => ErrorKind::Authorization,
            QuasarErrorCode::InvalidOracleOwner => ErrorKind::Authorization,
            QuasarErrorCode::OracleAlreadyInitialized => ErrorKind::InvariantViolation,
            QuasarErrorCode::DuplicateBaseToken => ErrorKind::InvariantViolation,
            QuasarErrorCode::DuplicateLeverageToken => ErrorKind::InvariantViolation,
            QuasarErrorCode::BaseTokenRegistryFull => ErrorKind::InvariantViolation,
            QuasarErrorCode::LeverageTokenRegistryFull => ErrorKind::InvariantViolation,
            QuasarErrorCode::BaseTokenNotFound => ErrorKind::NotFound,
            QuasarErrorCode::UnknownOracle => ErrorKind::Classification,
            QuasarErrorCode::MathError => ErrorKind::Arithmetic,
            QuasarErrorCode::InvalidAccount => ErrorKind::InvalidInput,
            QuasarErrorCode::InvalidAccountSize => ErrorKind::InvalidInput,
            QuasarErrorCode::InvalidInstructionData => ErrorKind::InvalidInput,
            QuasarErrorCode::NotEnoughAccounts => ErrorKind::InvalidInput,
            QuasarErrorCode::InvalidStage => ErrorKind::InvalidInput,
            QuasarErrorCode::NotImplemented => ErrorKind::Unimplemented,
        }
    }

    /// The class of failure that the code belongs to.
    #[verifier::when_used_as_spec(spec_kind)]
    pub fn kind(self) -> (kind: ErrorKind)
        ensures
            kind == self.spec_kind(),
    {
        match self {
            QuasarErrorCode::InvalidGroupOwner => ErrorKind::Authorization,
            QuasarErrorCode::GroupNotRentExempt => ErrorKind::Authorization,
            QuasarErrorCode::GroupAlreadyInitialized => ErrorKind::InvariantViolation,
            QuasarErrorCode::GroupNotInitialized => ErrorKind::Authorization,
            QuasarErrorCode::InvalidSignerKey => ErrorKind::Authorization,
            QuasarErrorCode::SignerNecessary => ErrorKind::Authorization,
            QuasarErrorCode::InvalidAdminKey => ErrorKind::Authorization,
            QuasarErrorCode::InvalidOracleOwner => ErrorKind::Authorization,
            QuasarErrorCode::OracleAlreadyInitialized => ErrorKind::InvariantViolation,
            QuasarErrorCode::DuplicateBaseToken => ErrorKind::InvariantViolation,
            QuasarErrorCode::DuplicateLeverageToken => ErrorKind::InvariantViolation,
            QuasarErrorCode::BaseTokenRegistryFull => ErrorKind::InvariantViolation,
            QuasarErrorCode::LeverageTokenRegistryFull => ErrorKind::InvariantViolation,
            QuasarErrorCode::BaseTokenNotFound => ErrorKind::NotFound,
            QuasarErrorCode::UnknownOracle => ErrorKind::Classification,
            QuasarErrorCode::MathError => ErrorKind::Arithmetic,
            QuasarErrorCode::InvalidAccount => ErrorKind::InvalidInput,
            QuasarErrorCode::InvalidAccountSize => ErrorKind::InvalidInput,
            QuasarErrorCode::InvalidInstructionData => ErrorKind::InvalidInput,
            QuasarErrorCode::NotEnoughAccounts => ErrorKind::InvalidInput,
            QuasarErrorCode::InvalidStage => ErrorKind::InvalidInput,
            QuasarErrorCode::NotImplemented => ErrorKind::Unimplemented,
        }
    }

    /// The number under which the code is reported to the host.
    pub open spec fn spec_number(self) -> u32 {
        match self {
            QuasarErrorCode::InvalidGroupOwner => 0,
            QuasarErrorCode::GroupNotRentExempt => 1,
            QuasarErrorCode::GroupAlreadyInitialized => 2,
            QuasarErrorCode::GroupNotInitialized => 3,
            QuasarErrorCode::InvalidSignerKey => 4,
            QuasarErrorCode::SignerNecessary => 5,
            QuasarErrorCode::InvalidAdminKey => 6,
            QuasarErrorCode::InvalidOracleOwner => 7,
            QuasarErrorCode::OracleAlreadyInitialized => 8,
            QuasarErrorCode::DuplicateBaseToken => 9,
            QuasarErrorCode::DuplicateLeverageToken => 10,
            QuasarErrorCode::BaseTokenRegistryFull => 11,
            QuasarErrorCode::LeverageTokenRegistryFull => 12,
            QuasarErrorCode::BaseTokenNotFound => 13,
            QuasarErrorCode::UnknownOracle => 14,
            QuasarErrorCode::MathError => 15,
            QuasarErrorCode::InvalidAccount => 16,
            QuasarErrorCode::InvalidAccountSize => 17,
            QuasarErrorCode::InvalidInstructionData => 18,
            QuasarErrorCode::NotEnoughAccounts => 19,
            QuasarErrorCode::InvalidStage => 20,
            QuasarErrorCode::NotImplemented => 21,
        }
    }

    /// The number under which the code is reported to the host.
    #[verifier::when_used_as_spec(spec_number)]
    pub fn number(self) -> (number: u32)
        ensures
            number == self.spec_number(),
    {
        match self {
            QuasarErrorCode::InvalidGroupOwner => 0,
            QuasarErrorCode::GroupNotRentExempt => 1,
            QuasarErrorCode::GroupAlreadyInitialized => 2,
            QuasarErrorCode::GroupNotInitialized => 3,
            QuasarErrorCode::InvalidSignerKey => 4,
            QuasarErrorCode::SignerNecessary => 5,
            QuasarErrorCode::InvalidAdminKey => 6,
            QuasarErrorCode::InvalidOracleOwner => 7,
            QuasarErrorCode::OracleAlreadyInitialized => 8,
            QuasarErrorCode::DuplicateBaseToken => 9,
            QuasarErrorCode::DuplicateLeverageToken => 10,
            QuasarErrorCode::BaseTokenRegistryFull => 11,
            QuasarErrorCode::LeverageTokenRegistryFull => 12,
            QuasarErrorCode::BaseTokenNotFound => 13,
            QuasarErrorCode::UnknownOracle => 14,
            QuasarErrorCode::MathError => 15,
            QuasarErrorCode::InvalidAccount => 16,
            QuasarErrorCode::InvalidAccountSize => 17,
            QuasarErrorCode::InvalidInstructionData => 18,
            QuasarErrorCode::NotEnoughAccounts => 19,
            QuasarErrorCode::InvalidStage => 20,
            QuasarErrorCode::NotImplemented => 21,
        }
    }
}

/// A failed invocation of a handler.
#[derive(Clone, Copy, Debug, PartialEq, Eq, Structural)]
pub enum QuasarError {
    /// The status code with which a collaborator failed, passed on unchanged.
    ProgramError(u64),
    /// A check of this crate failed at `step` of the component `source_file_id`.
    QuasarErrorCode { quasar_error_code: QuasarErrorCode, step: u32, source_file_id: SourceFileId },
}

impl QuasarError {
    pub open spec fn spec_kind(self) -> ErrorKind {
        match self {
            QuasarError::ProgramError(_) => ErrorKind::Collaborator,
            QuasarError::QuasarErrorCode { quasar_error_code, .. } => quasar_error_code.spec_kind(),
        }
    }

    /// The class of failure.
    #[verifier::when_used_as_spec(spec_kind)]
    pub fn kind(self) -> (kind: ErrorKind)
        ensures
            kind == self.spec_kind(),
    {
        match self {
            QuasarError::ProgramError(_) => ErrorKind::Collaborator,
            QuasarError::QuasarErrorCode { quasar_error_code, .. } => quasar_error_code.kind(),
        }
    }

    /// The error of the check that failed at `step` of the component
    /// `source_file_id`.
    pub open spec fn at(code: QuasarErrorCode, source_file_id: SourceFileId, step: u32) -> QuasarError {
        QuasarError::QuasarErrorCode { quasar_error_code: code, step, source_file_id }
    }

    /// The error of the check that failed at `step` of the component
    /// `source_file_id`.
    pub fn new(code: QuasarErrorCode, source_file_id: SourceFileId, step: u32) -> (e: QuasarError)
        ensures
            e == QuasarError::at(code, source_file_id, step),
    {
        QuasarError::QuasarErrorCode { quasar_error_code: code, step, source_file_id }
    }
}


} // verus!
