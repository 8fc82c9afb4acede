//! The library's error classification: each error carries a kind, a numeric
//! code and a human-readable message.
use vstd::prelude::*;

verus! {

/// The three kinds of error.
#[derive(Copy, Clone, PartialEq, Eq, Structural, Debug)]
pub enum ErrorKind {
    /// Bring-up of the transport or of the device failed.
    Init,
    /// A device operation failed after the context and handle existed.
    Command,
    /// The caller's input was refused, with no transport call involved.
    Common,
}

/// An error of the library.
#[derive(Debug)]
pub enum FtdiContextError {
    UsbInit { code: i32, message: String },
    UsbCommandError { code: i32, message: String },
    UsbCommonError { code: i32, message: String },
}

/// The errors of the device listing are classified the same way.
pub type FtdiError = FtdiContextError;

impl FtdiContextError {
    pub open spec fn kind(&self) -> ErrorKind {
        match self {
            FtdiContextError::UsbInit { .. } => ErrorKind::Init,
            FtdiContextError::UsbCommandError { .. } => ErrorKind::Command,
            FtdiContextError::UsbCommonError { .. } => ErrorKind::Common,
        }
    }

    pub open spec fn code(&self) -> i32 {
        match self {
            FtdiContextError::UsbInit { code, .. } => *code,
            FtdiContextError::UsbCommandError { code, .. } => *code,
            FtdiContextError::UsbCommonError { code, .. } => *code,
        }
    }

    pub open spec fn message(&self) -> Seq<char> {
        match self {
            FtdiContextError::UsbInit { message, .. } => message@,
            FtdiContextError::UsbCommandError { message, .. } => message@,
            FtdiContextError::UsbCommonError { message, .. } => message@,
        }
    }

    /// Whether the error is of `kind` with `code`.
    pub open spec fn is(&self, kind: ErrorKind, code: int) -> bool {
        self.kind() == kind && self.code() == code
    }

    /// A new error of the given kind, code and message.
    pub fn new(kind: ErrorKind, code: i32, message: &str) -> (r: FtdiContextError)
        ensures
            r.is(kind, code as int),
            r.message() == message@,
    {
        let message = message.to_owned();
        match kind {
            ErrorKind::Init => FtdiContextError::UsbInit { code, message },
            ErrorKind::Command => FtdiContextError::UsbCommandError { code, message },
            ErrorKind::Common => FtdiContextError::UsbCommonError { code, message },
        }
    }

    /// The kind of the error.
    pub fn error_kind(&self) -> (r: ErrorKind)
        ensures
            r == self.kind(),
    {
        match self {
            FtdiContextError::UsbInit { .. } => ErrorKind::Init,
            FtdiContextError::UsbCommandError { .. } => ErrorKind::Command,
            FtdiContextError::UsbCommonError { .. } => ErrorKind::Common,
        }
    }

    /// The numeric code of the error.
    pub fn error_code(&self) -> (r: i32)
        ensures
            r == self.code(),
    {
        match self {
            FtdiContextError::UsbInit { code, .. } => *code,
            FtdiContextError::UsbCommandError { code, .. } => *code,
            FtdiContextError::UsbCommonError { code, .. } => *code,
        }
    }

    /// The message of the error.
    pub fn error_message(&self) -> (r: &str)
        ensures
            r@ == self.message(),
    {
        match self {
            FtdiContextError::UsbInit { message, .. } => message.as_str(),
            FtdiContextError::UsbCommandError { message, .. } => message.as_str(),
            FtdiContextError::UsbCommonError { message, .. } => message.as_str(),
        }
    }
}

/// The transport's status codes: 0 for success, -1 to -12 for the classified
/// failures and -99 for any other failure. Every other value is unknown and
/// is reported as -1000.
pub open spec fn sys_init_error_code(err: i32) -> i32 {
    if (-12 <= err <= 0) || err == -99 {
        err
    } else {
        -1000i32
    }
}

impl PartialEq for FtdiContextError {
    fn eq(&self, other: &FtdiContextError) -> (r: bool) {
        match (self, other) {
            (
                FtdiContextError::UsbInit { code: c1, message: m1 },
                FtdiContextError::UsbInit { code: c2, message: m2 },
            ) => *c1 == *c2 && *m1 == *m2,
            (
                FtdiContextError::UsbCommandError { code: c1, message: m1 },
                FtdiContextError::UsbCommandError { code: c2, message: m2 },
            ) => *c1 == *c2 && *m1 == *m2,
            (
                FtdiContextError::UsbCommonError { code: c1, message: m1 },
                FtdiContextError::UsbCommonError { code: c2, message: m2 },
            ) => *c1 == *c2 && *m1 == *m2,
            _ => false,
        }
    }
}

impl vstd::std_specs::cmp::PartialEqSpecImpl for FtdiContextError {
    open spec fn obeys_eq_spec() -> bool {
        true
    }

    open spec fn eq_spec(&self, other: &FtdiContextError) -> bool {
        self.kind() == other.kind() && self.code() == other.code() && self.message()
            == other.message()
    }
}

} // verus!
