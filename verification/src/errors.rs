//! Error values of the transfer core.

use vstd::prelude::*;

verus! {

/// Native return code for success.
pub const NATIVE_OK: i32 = 0;
/// Native return code for an input/output error.
pub const NATIVE_ERROR_IO: i32 = -1;
/// Native return code for an invalid parameter.
pub const NATIVE_ERROR_INVALID_PARAM: i32 = -2;
/// Native return code for denied access.
pub const NATIVE_ERROR_ACCESS: i32 = -3;
/// Native return code for a disconnected device.
pub const NATIVE_ERROR_NO_DEVICE: i32 = -4;
/// Native return code for a missing entity.
pub const NATIVE_ERROR_NOT_FOUND: i32 = -5;
/// Native return code for a busy resource.
pub const NATIVE_ERROR_BUSY: i32 = -6;
/// Native return code for a timeout.
pub const NATIVE_ERROR_TIMEOUT: i32 = -7;
/// Native return code for an overflow.
pub const NATIVE_ERROR_OVERFLOW: i32 = -8;
/// Native return code for a pipe error.
pub const NATIVE_ERROR_PIPE: i32 = -9;
/// Native return code for an interrupted call.
pub const NATIVE_ERROR_INTERRUPTED: i32 = -10;
/// Native return code for an allocation failure.
pub const NATIVE_ERROR_NO_MEM: i32 = -11;
/// Native return code for an unsupported operation.
pub const NATIVE_ERROR_NOT_SUPPORTED: i32 = -12;

/// An error reported by the native library, decoded from its negative
/// return codes.
#[derive(Debug, Copy, Clone, PartialEq, Eq, Structural)]
pub enum UsbError {
    /// Input/output error
    Io,
    /// Invalid parameter
    InvalidParam,
    /// Access denied (insufficient permissions)
    Access,
    /// No such device (it may have been disconnected)
    NoDevice,
    /// Entity not found
    NotFound,
    /// Resource busy
    Busy,
    /// Operation timed out
    Timeout,
    /// Overflow
    Overflow,
    /// Pipe error
    Pipe,
    /// System call interrupted (perhaps due to signal)
    Interrupted,
    /// Insufficient memory
    NoMem,
    /// Operation not supported or unimplemented on this platform
    NotSupported,
    /// Other error
    Other,
}

/// What each negative native return code decodes to.  Codes outside the
/// documented range decode to `Other`.
pub open spec fn spec_usb_error_of_code(err: i32) -> UsbError {
    if err == NATIVE_ERROR_IO {
        UsbError::Io
    } else if err == NATIVE_ERROR_INVALID_PARAM {
        UsbError::InvalidParam
    } else if err == NATIVE_ERROR_ACCESS {
        UsbError::Access
    } else if err == NATIVE_ERROR_NO_DEVICE {
        UsbError::NoDevice
    } else if err == NATIVE_ERROR_NOT_FOUND {
        UsbError::NotFound
    } else if err == NATIVE_ERROR_BUSY {
        UsbError::Busy
    } else if err == NATIVE_ERROR_TIMEOUT {
        UsbError::Timeout
    } else if err == NATIVE_ERROR_OVERFLOW {
        UsbError::Overflow
    } else if err == NATIVE_ERROR_PIPE {
        UsbError::Pipe
    } else if err == NATIVE_ERROR_INTERRUPTED {
        UsbError::Interrupted
    } else if err == NATIVE_ERROR_NO_MEM {
        UsbError::NoMem
    } else if err == NATIVE_ERROR_NOT_SUPPORTED {
        UsbError::NotSupported
    } else {
        UsbError::Other
    }
}

impl UsbError {
    /// Decodes a native error return code.
    pub fn from_code(err: i32) -> (r: UsbError)
        ensures
            r == spec_usb_error_of_code(err),
    {
        if err == NATIVE_ERROR_IO {
            UsbError::Io
        } else if err == NATIVE_ERROR_INVALID_PARAM {
            UsbError::InvalidParam
        } else if err == NATIVE_ERROR_ACCESS {
            UsbError::Access
        } else if err == NATIVE_ERROR_NO_DEVICE {
            UsbError::NoDevice
        } else if err == NATIVE_ERROR_NOT_FOUND {
            UsbError::NotFound
        } else if err == NATIVE_ERROR_BUSY {
            UsbError::Busy
        } else if err == NATIVE_ERROR_TIMEOUT {
            UsbError::Timeout
        } else if err == NATIVE_ERROR_OVERFLOW {
            UsbError::Overflow
        } else if err == NATIVE_ERROR_PIPE {
            UsbError::Pipe
        } else if err == NATIVE_ERROR_INTERRUPTED {
            UsbError::Interrupted
        } else if err == NATIVE_ERROR_NO_MEM {
            UsbError::NoMem
        } else if err == NATIVE_ERROR_NOT_SUPPORTED {
            UsbError::NotSupported
        } else {
            UsbError::Other
        }
    }
}

/// An error of the asynchronous transfer subsystem.
///
/// The subsystem distinguishes recoverable conditions, which a caller may
/// handle, from fatal ones, which indicate a broken invariant: the driver
/// around this crate is expected to terminate the process on a fatal error
/// instead of continuing past it.
#[derive(Debug, Copy, Clone, PartialEq, Eq, Structural)]
pub enum AsyncError {
    /// `pump` was driven before any event-loop registration existed
    /// (recoverable: register first, then pump).
    RegisterBeforeHandling,
    /// A second registration was attempted while one is active
    /// (fatal: the native library does not support concurrent observers).
    AlreadyRegistered,
    /// Deregistration or reconciliation was attempted with no active
    /// registration (fatal).
    NotRegistered,
    /// The identifier has no entry in the running table
    /// (recoverable: the transfer already retired, or the caller passed
    /// a stale handle).
    TransferNotRunning,
    /// The identifier is running but was never marked submitted, so there
    /// is no native handle to act on (recoverable).
    TransferNotSubmitted,
    /// A completion was dispatched for an identifier the running table
    /// does not know (fatal: the native side violated its contract).
    UnknownTransfer,
    /// A record's buffer was absent at a point where the dispatch protocol
    /// guarantees its presence (fatal).
    MissingBuffer,
    /// The native library rejected a call; carries the decoded code.
    Native(UsbError),
}

impl AsyncError {
    /// Whether the error is an invariant violation that the surrounding
    /// process must not try to continue past.
    pub fn is_fatal(&self) -> (r: bool)
        ensures
            r <==> (*self == AsyncError::AlreadyRegistered || *self == AsyncError::NotRegistered
                || *self == AsyncError::UnknownTransfer || *self == AsyncError::MissingBuffer),
    {
        match *self {
            AsyncError::AlreadyRegistered => true,
            AsyncError::NotRegistered => true,
            AsyncError::UnknownTransfer => true,
            AsyncError::MissingBuffer => true,
            _ => false,
        }
    }
}

} // verus!
