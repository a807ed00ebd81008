//! Failures of a call, their kinds and the codes they carry in a response.
use vstd::prelude::*;

verus! {

/// What kind of failure ended a call.
#[derive(Clone, Copy, Debug, PartialEq, Eq, Structural)]
pub enum ErrorKind {
    /// The wallet's storage could not be opened.
    StorageOpenFailure,
    /// The wallet library or the data-source client failed.
    NativeLibraryFailure,
    /// A request or a response could not be encoded or decoded.
    SerializationFailure,
    /// A handle does not name a live object of the expected kind.
    InvalidHandle,
    /// A request was routed to a handler that does not serve it.
    UnsupportedOperation,
    /// An address, amount, outpoint or encoded transaction is malformed.
    ParameterParseFailure,
}

/// A failed call, with the cause as text.
#[derive(Debug)]
pub enum BdkJniError {
    WalletError(String),
    ElectrumClientError(String),
    Serialization(String),
    Unsupported(String),
    InvalidHandle,
    /// The cause, and the storage path.
    CantOpenDb(String, String),
    /// The cause, and the tree name.
    CantOpenTree(String, String),
    Parsing(String),
    ExtKeyError(String),
}

/// Response code of a failure reported by the library or the dispatcher.
pub const LIBRARY_ERROR_CODE: i32 = -1;

/// Response code when the payload could not even be serialised as an error.
pub const FALLBACK_ERROR_CODE: i32 = -1000;

/// Response code when the incoming text could not be read.
pub const INVALID_INPUT_CODE: i32 = -1001;

/// Response code when a handle names no live object of the expected kind.
pub const INVALID_HANDLE_CODE: i32 = -1002;

/// Response code when the incoming text is not a request.
pub const BAD_REQUEST_CODE: i32 = -1003;

/// Response code when a result could not be serialised.
pub const BAD_RESPONSE_CODE: i32 = -1004;

impl BdkJniError {
    pub open spec fn kind_spec(&self) -> ErrorKind {
        match self {
            BdkJniError::WalletError(_) => ErrorKind::NativeLibraryFailure,
            BdkJniError::ElectrumClientError(_) => ErrorKind::NativeLibraryFailure,
            BdkJniError::ExtKeyError(_) => ErrorKind::NativeLibraryFailure,
            BdkJniError::Serialization(_) => ErrorKind::SerializationFailure,
            BdkJniError::Unsupported(_) => ErrorKind::UnsupportedOperation,
            BdkJniError::InvalidHandle => ErrorKind::InvalidHandle,
            BdkJniError::CantOpenDb(_, _) => ErrorKind::StorageOpenFailure,
            BdkJniError::CantOpenTree(_, _) => ErrorKind::StorageOpenFailure,
            BdkJniError::Parsing(_) => ErrorKind::ParameterParseFailure,
        }
    }

    /// The kind of this failure.
    pub fn kind(&self) -> (r: ErrorKind)
        ensures
            r == self.kind_spec(),
    {
        match self {
            BdkJniError::WalletError(_) => ErrorKind::NativeLibraryFailure,
            BdkJniError::ElectrumClientError(_) => ErrorKind::NativeLibraryFailure,
            BdkJniError::ExtKeyError(_) => ErrorKind::NativeLibraryFailure,
            BdkJniError::Serialization(_) => ErrorKind::SerializationFailure,
            BdkJniError::Unsupported(_) => ErrorKind::UnsupportedOperation,
            BdkJniError::InvalidHandle => ErrorKind::InvalidHandle,
            BdkJniError::CantOpenDb(_, _) => ErrorKind::StorageOpenFailure,
            BdkJniError::CantOpenTree(_, _) => ErrorKind::StorageOpenFailure,
            BdkJniError::Parsing(_) => ErrorKind::ParameterParseFailure,
        }
    }

    pub open spec fn code_spec(&self) -> i32 {
        if self.kind_spec() == ErrorKind::InvalidHandle {
            INVALID_HANDLE_CODE
        } else {
            LIBRARY_ERROR_CODE
        }
    }

    /// The code this failure carries in a response: a handle that names
    /// nothing has a reserved code of its own, every other failure the
    /// library's code.
    pub fn code(&self) -> (r: i32)
        ensures
            r == self.code_spec(),
    {
        match self {
            BdkJniError::InvalidHandle => INVALID_HANDLE_CODE,
            _ => LIBRARY_ERROR_CODE,
        }
    }
}

} // verus!
