//! Native status codes and the error taxonomy built on them.

use vstd::prelude::*;
use vstd::string::StringExecFns;

verus! {

/// Native status of a successful call.
pub const SUCCESS: i32 = 0;

/// Native status: input / output error.
pub const EIO: i32 = -1;

/// Native status: invalid argument(s).
pub const EINVARG: i32 = -2;

/// Native status: operation not supported by the device.
pub const EDEVNOTSUPP: i32 = -3;

/// Native status: no such device (not part of the taxonomy).
pub const ENOTSUCHDEV: i32 = -4;

/// Native status: buffer overflow.
pub const EOVFLOW: i32 = -5;

/// Native status: operation timed out.
pub const ETIMEOUT: i32 = -6;

/// Native status: operation aborted.
pub const EOPABORTED: i32 = -7;

/// Native status: not (yet) implemented.
pub const ENOTIMPL: i32 = -8;

/// Native status: target released.
pub const ETGRELEASED: i32 = -10;

/// Native status: RF transmission error.
pub const ERFTRANS: i32 = -20;

/// Native status: Mifare authentication failed.
pub const EMFCAUTHFAIL: i32 = -30;

/// Native status: software error.
pub const ESOFT: i32 = -80;

/// Native status: device's internal chip error.
pub const ECHIP: i32 = -90;

/// The kinds of failure the native layer reports.
#[derive(Debug, Clone, Copy, PartialEq, Eq, Structural)]
pub enum ErrorKind {
    Success,
    InputOutput,
    InvalidArguments,
    OperationNotSupported,
    Overflow,
    Timeout,
    OperationAborted,
    NotImplemented,
    TargetReleased,
    RFTransmission,
    MifareClassicAuth,
    Software,
    InternalChip,
    /// A status code outside the known set, kept as it was reported.
    Unrecognized { code: i32 },
}

/// The known kind of a native status code, if the code is one of the known set.
pub open spec fn known_kind(code: i32) -> Option<ErrorKind> {
    if code == SUCCESS {
        Some(ErrorKind::Success)
    } else if code == EIO {
        Some(ErrorKind::InputOutput)
    } else if code == EINVARG {
        Some(ErrorKind::InvalidArguments)
    } else if code == EDEVNOTSUPP {
        Some(ErrorKind::OperationNotSupported)
    } else if code == EOVFLOW {
        Some(ErrorKind::Overflow)
    } else if code == ETIMEOUT {
        Some(ErrorKind::Timeout)
    } else if code == EOPABORTED {
        Some(ErrorKind::OperationAborted)
    } else if code == ENOTIMPL {
        Some(ErrorKind::NotImplemented)
    } else if code == ETGRELEASED {
        Some(ErrorKind::TargetReleased)
    } else if code == ERFTRANS {
        Some(ErrorKind::RFTransmission)
    } else if code == EMFCAUTHFAIL {
        Some(ErrorKind::MifareClassicAuth)
    } else if code == ESOFT {
        Some(ErrorKind::Software)
    } else if code == ECHIP {
        Some(ErrorKind::InternalChip)
    } else {
        None
    }
}

/// The kind of any native status code: its known kind, or `Unrecognized`
/// carrying the code itself.
pub open spec fn kind_of(code: i32) -> ErrorKind {
    match known_kind(code) {
        Some(k) => k,
        None => ErrorKind::Unrecognized { code },
    }
}

/// The status code that a kind stands for.
pub open spec fn code_of(kind: ErrorKind) -> i32 {
    match kind {
        ErrorKind::Success => SUCCESS,
        ErrorKind::InputOutput => EIO,
        ErrorKind::InvalidArguments => EINVARG,
        ErrorKind::OperationNotSupported => EDEVNOTSUPP,
        ErrorKind::Overflow => EOVFLOW,
        ErrorKind::Timeout => ETIMEOUT,
        ErrorKind::OperationAborted => EOPABORTED,
        ErrorKind::NotImplemented => ENOTIMPL,
        ErrorKind::TargetReleased => ETGRELEASED,
        ErrorKind::RFTransmission => ERFTRANS,
        ErrorKind::MifareClassicAuth => EMFCAUTHFAIL,
        ErrorKind::Software => ESOFT,
        ErrorKind::InternalChip => ECHIP,
        ErrorKind::Unrecognized { code } => code,
    }
}

impl ErrorKind {
    /// The known kind of a native status code, or `None` for a code outside
    /// the known set.
    pub fn from_foreign(data: i32) -> (r: Option<ErrorKind>)
        ensures
            r == known_kind(data),
    {
        match data {
            SUCCESS => Some(ErrorKind::Success),
            EIO => Some(ErrorKind::InputOutput),
            EINVARG => Some(ErrorKind::InvalidArguments),
            EDEVNOTSUPP => Some(ErrorKind::OperationNotSupported),
            EOVFLOW => Some(ErrorKind::Overflow),
            ETIMEOUT => Some(ErrorKind::Timeout),
            EOPABORTED => Some(ErrorKind::OperationAborted),
            ENOTIMPL => Some(ErrorKind::NotImplemented),
            ETGRELEASED => Some(ErrorKind::TargetReleased),
            ERFTRANS => Some(ErrorKind::RFTransmission),
            EMFCAUTHFAIL => Some(ErrorKind::MifareClassicAuth),
            ESOFT => Some(ErrorKind::Software),
            ECHIP => Some(ErrorKind::InternalChip),
            _ => None,
        }
    }

    /// Classifies any native status code; never loses the code.
    pub fn classify(code: i32) -> (r: ErrorKind)
        ensures
            r == kind_of(code),
            known_kind(code) matches Some(k) ==> r == k,
            known_kind(code) is None ==> r == (ErrorKind::Unrecognized { code }),
            code_of(r) == code,
    {
        match ErrorKind::from_foreign(code) {
            Some(kind) => kind,
            None => ErrorKind::Unrecognized { code },
        }
    }

    /// A short human-readable description of the kind.
    pub fn description(&self) -> (r: &'static str)
        ensures
            r@ == kind_text(*self),
    {
        match self {
            ErrorKind::Success => "Success",
            ErrorKind::InputOutput => "Input / Output Error",
            ErrorKind::InvalidArguments => "Invalid argument(s)",
            ErrorKind::OperationNotSupported => "Not Supported by Device",
            ErrorKind::Overflow => "Buffer Overflow",
            ErrorKind::Timeout => "Timeout",
            ErrorKind::OperationAborted => "Operation Aborted",
            ErrorKind::NotImplemented => "Not (yet) Implemented",
            ErrorKind::TargetReleased => "Target Released",
            ErrorKind::MifareClassicAuth => "Mifare Authentication Error",
            ErrorKind::RFTransmission => "RF Transmission Error",
            ErrorKind::InternalChip => "Device's Internal Chip Error",
            _ => "Unknown error",
        }
    }
}

/// The text that describes each kind.
pub open spec fn kind_text(kind: ErrorKind) -> Seq<char> {
    match kind {
        ErrorKind::Success => "Success"@,
        ErrorKind::InputOutput => "Input / Output Error"@,
        ErrorKind::InvalidArguments => "Invalid argument(s)"@,
        ErrorKind::OperationNotSupported => "Not Supported by Device"@,
        ErrorKind::Overflow => "Buffer Overflow"@,
        ErrorKind::Timeout => "Timeout"@,
        ErrorKind::OperationAborted => "Operation Aborted"@,
        ErrorKind::NotImplemented => "Not (yet) Implemented"@,
        ErrorKind::TargetReleased => "Target Released"@,
        ErrorKind::MifareClassicAuth => "Mifare Authentication Error"@,
        ErrorKind::RFTransmission => "RF Transmission Error"@,
        ErrorKind::InternalChip => "Device's Internal Chip Error"@,
        _ => "Unknown error"@,
    }
}

/// An error reported through a native status code.
#[derive(Debug, Clone, Copy, PartialEq, Eq, Structural)]
pub struct FfiError {
    pub error: ErrorKind,
}

impl FfiError {
    /// The kind of the error.
    pub open spec fn spec_kind(self) -> ErrorKind {
        self.error
    }

    /// The kind of the error.
    pub fn kind(&self) -> (r: ErrorKind)
        ensures
            r == self.spec_kind(),
    {
        self.error
    }
}

/// Every failure this library reports.
#[derive(Debug)]
pub enum NfcError {
    /// A failure that the native layer reported with a status code.
    FfiError { error: FfiError },
    /// A failure for which the native layer gave no code.
    UnknownError { details: String },
}

/// The result of a fallible operation.
pub type NfcResult<T> = Result<T, NfcError>;

/// The error that a native status code reports.
pub open spec fn status_error(code: i32) -> NfcError {
    NfcError::FfiError { error: ffi_error(kind_of(code)) }
}

/// The error value that carries a kind.
pub open spec fn ffi_error(kind: ErrorKind) -> FfiError {
    FfiError { error: kind }
}

/// What distinguishes one error from another.
pub open spec fn error_model(e: NfcError) -> Result<ErrorKind, Seq<char>> {
    match e {
        NfcError::FfiError { error } => Ok(error.spec_kind()),
        NfcError::UnknownError { details } => Err(details@),
    }
}

impl NfcError {
    /// An error with a free-form message, for failures without a status code.
    pub fn new(message: &str) -> (r: NfcError)
        ensures
            error_model(r) == Err::<ErrorKind, Seq<char>>(message@),
    {
        NfcError::UnknownError { details: message.to_owned() }
    }

    /// The error that a native status code reports.
    pub fn from_status(code: i32) -> (r: NfcError)
        ensures
            r == status_error(code),
            error_model(r) == Ok::<ErrorKind, Seq<char>>(kind_of(code)),
    {
        NfcError::FfiError { error: FfiError { error: ErrorKind::classify(code) } }
    }

    /// A human-readable description of the error.
    pub fn message(&self) -> (r: String)
        ensures
            r@ == error_text(*self),
    {
        match self {
            NfcError::FfiError { error } => {
                let head = "NFC Error Occurred: ".to_owned();
                head.concat(error.error.description())
            },
            NfcError::UnknownError { details } => {
                let head = "Unknown NFC error occurred: ".to_owned();
                head.concat(details.as_str())
            },
        }
    }
}

/// The text that describes an error.
pub open spec fn error_text(e: NfcError) -> Seq<char> {
    match e {
        NfcError::FfiError { error } => "NFC Error Occurred: "@ + kind_text(error.spec_kind()),
        NfcError::UnknownError { details } => "Unknown NFC error occurred: "@ + details@,
    }
}

impl From<i32> for NfcError {
    fn from(data: i32) -> (r: NfcError) {
        NfcError::from_status(data)
    }
}

impl vstd::std_specs::convert::FromSpecImpl<i32> for NfcError {
    open spec fn obeys_from_spec() -> bool {
        true
    }

    open spec fn from_spec(data: i32) -> NfcError {
        status_error(data)
    }
}

} // verus!
