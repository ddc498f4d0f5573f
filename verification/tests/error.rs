use quasar::error::{ErrorKind, QuasarError, QuasarErrorCode, SourceFileId};

fn all_codes() -> Vec<QuasarErrorCode> {
    vec![
        QuasarErrorCode::InvalidGroupOwner,
        QuasarErrorCode::GroupNotRentExempt,
        QuasarErrorCode::GroupAlreadyInitialized,
        QuasarErrorCode::GroupNotInitialized,
        QuasarErrorCode::InvalidSignerKey,
        QuasarErrorCode::SignerNecessary,
        QuasarErrorCode::InvalidAdminKey,
        QuasarErrorCode::InvalidOracleOwner,
        QuasarErrorCode::OracleAlreadyInitialized,
        QuasarErrorCode::DuplicateBaseToken,
        QuasarErrorCode::DuplicateLeverageToken,
        QuasarErrorCode::BaseTokenRegistryFull,
        QuasarErrorCode::LeverageTokenRegistryFull,
        QuasarErrorCode::BaseTokenNotFound,
        QuasarErrorCode::UnknownOracle,
        QuasarErrorCode::MathError,
        QuasarErrorCode::InvalidAccount,
        QuasarErrorCode::InvalidAccountSize,
        QuasarErrorCode::InvalidInstructionData,
        QuasarErrorCode::NotEnoughAccounts,
        QuasarErrorCode::InvalidStage,
        QuasarErrorCode::NotImplemented,
    ]
}

#[test]
fn codes_are_numbered_in_order() {
    for (n, code) in all_codes().into_iter().enumerate() {
        assert_eq!(code.number(), n as u32);
    }
}

#[test]
fn every_code_has_its_kind() {
    let kinds = [
        ErrorKind::Authorization,
        ErrorKind::Authorization,
        ErrorKind::InvariantViolation,
        ErrorKind::Authorization,
        ErrorKind::Authorization,
        ErrorKind::Authorization,
        ErrorKind::Authorization,
        ErrorKind::Authorization,
        ErrorKind::InvariantViolation,
        ErrorKind::InvariantViolation,
        ErrorKind::InvariantViolation,
        ErrorKind::InvariantViolation,
        ErrorKind::InvariantViolation,
        ErrorKind::NotFound,
        ErrorKind::Classification,
        ErrorKind::Arithmetic,
        ErrorKind::InvalidInput,
        ErrorKind::InvalidInput,
        ErrorKind::InvalidInput,
        ErrorKind::InvalidInput,
        ErrorKind::InvalidInput,
        ErrorKind::Unimplemented,
    ];
    for (code, kind) in all_codes().into_iter().zip(kinds) {
        assert_eq!(code.kind(), kind);
        assert_eq!(QuasarError::new(code, SourceFileId::State, 3).kind(), kind);
    }
}

#[test]
fn an_error_carries_code_component_and_step() {
    let e = QuasarError::new(QuasarErrorCode::MathError, SourceFileId::Oracle, 4);
    assert_eq!(
        e,
        QuasarError::QuasarErrorCode {
            quasar_error_code: QuasarErrorCode::MathError,
            step: 4,
            source_file_id: SourceFileId::Oracle,
        }
    );
    assert_ne!(e, QuasarError::new(QuasarErrorCode::MathError, SourceFileId::Oracle, 5));
    assert_ne!(e, QuasarError::new(QuasarErrorCode::MathError, SourceFileId::Utils, 4));
    assert_ne!(e, QuasarError::new(QuasarErrorCode::UnknownOracle, SourceFileId::Oracle, 4));
}

#[test]
fn a_collaborators_status_is_kept() {
    let e = QuasarError::ProgramError(0x0000_0007_0000_0000);
    assert_eq!(e.kind(), ErrorKind::Collaborator);
    assert_eq!(e, QuasarError::ProgramError(0x0000_0007_0000_0000));
    assert_ne!(e, QuasarError::ProgramError(7));
}
