use hedera::error::{ErrorKind, KeyError, RecoveryError, TransportError};
use hedera::precheck::PreCheckCode;

#[test]
fn precheck_codes_have_their_numbers() {
    let named = [
        (0, PreCheckCode::Success),
        (1, PreCheckCode::InvalidTransaction),
        (2, PreCheckCode::InvalidAccount),
        (3, PreCheckCode::InsufficientFee),
        (4, PreCheckCode::InsufficientBalance),
        (5, PreCheckCode::Duplicate),
        (6, PreCheckCode::Busy),
        (7, PreCheckCode::NotSupported),
    ];
    for (raw, code) in named {
        assert_eq!(PreCheckCode::from_code(raw), code);
        assert_eq!(code.code(), raw);
        assert_eq!(code.is_ok(), raw == 0);
    }
    for raw in [8, 100, -1, i32::MAX, i32::MIN] {
        assert_eq!(PreCheckCode::from_code(raw), PreCheckCode::Unknown(raw));
        assert_eq!(PreCheckCode::Unknown(raw).code(), raw);
        assert!(!PreCheckCode::Unknown(raw).is_ok());
    }
}

#[test]
fn every_error_has_a_status_of_its_own() {
    assert_eq!(ErrorKind::Parse.status(), 1);
    assert_eq!(ErrorKind::MissingSignature.status(), 2);
    assert_eq!(ErrorKind::Transport.status(), 3);
    assert_eq!(ErrorKind::InvalidState.status(), 4);
    assert_eq!(ErrorKind::Backend.status(), 5);
    assert_eq!(ErrorKind::PreCheck(PreCheckCode::InsufficientBalance).status(), 0x1_8000_0004);
    assert_eq!(ErrorKind::PreCheck(PreCheckCode::InsufficientBalance).status(), 6442450948);
    assert_eq!(ErrorKind::PreCheck(PreCheckCode::Success).status(), 0x1_8000_0000);
    assert_eq!(ErrorKind::PreCheck(PreCheckCode::Unknown(8)).status(), 6442450952);
    assert_eq!(ErrorKind::PreCheck(PreCheckCode::Unknown(-1)).status(), 6442450943);
    assert_eq!(ErrorKind::PreCheck(PreCheckCode::Unknown(i32::MIN)).status(), 0x1_0000_0000);
    assert_eq!(ErrorKind::PreCheck(PreCheckCode::Unknown(i32::MAX)).status(), 0x1_ffff_ffff);
    let mut seen = std::collections::HashSet::new();
    for raw in -3..12 {
        assert!(seen.insert(ErrorKind::PreCheck(PreCheckCode::from_code(raw)).status()));
    }
    for plain in [
        ErrorKind::Parse,
        ErrorKind::MissingSignature,
        ErrorKind::Transport,
        ErrorKind::InvalidState,
        ErrorKind::Backend,
    ] {
        assert!(seen.insert(plain.status()));
        assert_ne!(plain.status(), 0);
    }
}

#[test]
fn errors_compare_by_kind() {
    assert_ne!(RecoveryError::InvalidPhrase, RecoveryError::Backend);
    assert_ne!(RecoveryError::TooLong, RecoveryError::Backend);
    assert_ne!(KeyError::Length, KeyError::TooLong);
    assert_ne!(KeyError::TooLong, KeyError::Backend);
    assert_eq!(TransportError {}, TransportError {});
    assert_ne!(
        ErrorKind::PreCheck(PreCheckCode::Busy),
        ErrorKind::PreCheck(PreCheckCode::Duplicate)
    );
}
