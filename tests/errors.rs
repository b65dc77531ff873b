use nfc::{ErrorKind, NfcError};

#[test]
fn classify_known_codes() {
    let table = [
        (0, ErrorKind::Success),
        (-1, ErrorKind::InputOutput),
        (-2, ErrorKind::InvalidArguments),
        (-3, ErrorKind::OperationNotSupported),
        (-5, ErrorKind::Overflow),
        (-6, ErrorKind::Timeout),
        (-7, ErrorKind::OperationAborted),
        (-8, ErrorKind::NotImplemented),
        (-10, ErrorKind::TargetReleased),
        (-20, ErrorKind::RFTransmission),
        (-30, ErrorKind::MifareClassicAuth),
        (-80, ErrorKind::Software),
        (-90, ErrorKind::InternalChip),
    ];
    for (code, kind) in table {
        assert_eq!(ErrorKind::classify(code), kind);
        assert_eq!(ErrorKind::from_foreign(code), Some(kind));
    }
}

#[test]
fn classify_unknown_codes_keeps_the_code() {
    for code in [-4, -9, -11, -100, 1, 7, i32::MIN, i32::MAX] {
        assert_eq!(ErrorKind::classify(code), ErrorKind::Unrecognized { code });
        assert_eq!(ErrorKind::from_foreign(code), None);
    }
}

#[test]
fn descriptions() {
    assert_eq!(ErrorKind::Success.description(), "Success");
    assert_eq!(ErrorKind::Timeout.description(), "Timeout");
    assert_eq!(ErrorKind::InternalChip.description(), "Device's Internal Chip Error");
    assert_eq!(ErrorKind::MifareClassicAuth.description(), "Mifare Authentication Error");
    assert_eq!(ErrorKind::Software.description(), "Unknown error");
    assert_eq!(ErrorKind::Unrecognized { code: -4 }.description(), "Unknown error");
}

#[test]
fn error_from_status_code() {
    let e = NfcError::from(-6);
    match &e {
        NfcError::FfiError { error } => assert_eq!(error.kind(), ErrorKind::Timeout),
        NfcError::UnknownError { .. } => panic!("expected a classified error"),
    }
    assert_eq!(e.message(), "NFC Error Occurred: Timeout");
    match NfcError::from_status(-42) {
        NfcError::FfiError { error } => {
            assert_eq!(error.kind(), ErrorKind::Unrecognized { code: -42 })
        }
        NfcError::UnknownError { .. } => panic!("expected a classified error"),
    }
}

#[test]
fn error_with_message() {
    let e = NfcError::new("no reader");
    match &e {
        NfcError::UnknownError { details } => assert_eq!(details, "no reader"),
        NfcError::FfiError { .. } => panic!("expected a free-form error"),
    }
    assert_eq!(e.message(), "Unknown NFC error occurred: no reader");
}
