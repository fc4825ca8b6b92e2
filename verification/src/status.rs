//! Decoded outcome of one native transfer.

use vstd::prelude::*;

verus! {

/// Native code for a transfer that completed without error.
pub const TRANSFER_CODE_COMPLETED: i32 = 0;
/// Native code for a transfer that failed with an I/O error.
pub const TRANSFER_CODE_ERROR: i32 = 1;
/// Native code for a transfer that timed out.
pub const TRANSFER_CODE_TIMED_OUT: i32 = 2;
/// Native code for a transfer that was cancelled.
pub const TRANSFER_CODE_CANCELLED: i32 = 3;
/// Native code for a halted endpoint or an unsupported control request.
pub const TRANSFER_CODE_STALL: i32 = 4;
/// Native code for a disconnected device.
pub const TRANSFER_CODE_NO_DEVICE: i32 = 5;
/// Native code for a device that sent more data than requested.
pub const TRANSFER_CODE_OVERFLOW: i32 = 6;

/// The status of a completed transfer, as decoded from the native
/// library's per-transfer status code.
#[derive(Debug, Copy, Clone, PartialEq, Eq, Structural)]
pub enum AsyncIoTransferStatus {
    /// Completed without error
    Success,
    /// Failed (IO error)
    Error,
    /// Timed out
    Timeout,
    /// Cancelled
    Cancelled,
    /// Endpoint stalled or control request not supported
    Stall,
    /// Device was disconnected
    NoDevice,
    /// Device sent more data than requested
    Overflow,
    /// No status, not yet submitted
    Unknown,
}

/// What each native status code decodes to.  Every code outside the
/// documented range decodes to `Unknown`.
pub open spec fn spec_status_of_code(nr: i32) -> AsyncIoTransferStatus {
    if nr == TRANSFER_CODE_COMPLETED {
        AsyncIoTransferStatus::Success
    } else if nr == TRANSFER_CODE_ERROR {
        AsyncIoTransferStatus::Error
    } else if nr == TRANSFER_CODE_TIMED_OUT {
        AsyncIoTransferStatus::Timeout
    } else if nr == TRANSFER_CODE_CANCELLED {
        AsyncIoTransferStatus::Cancelled
    } else if nr == TRANSFER_CODE_STALL {
        AsyncIoTransferStatus::Stall
    } else if nr == TRANSFER_CODE_NO_DEVICE {
        AsyncIoTransferStatus::NoDevice
    } else if nr == TRANSFER_CODE_OVERFLOW {
        AsyncIoTransferStatus::Overflow
    } else {
        AsyncIoTransferStatus::Unknown
    }
}

impl AsyncIoTransferStatus {
    /// Decodes a native status code.
    pub fn from_code(nr: i32) -> (r: AsyncIoTransferStatus)
        ensures
            r == spec_status_of_code(nr),
    {
        if nr == TRANSFER_CODE_COMPLETED {
            AsyncIoTransferStatus::Success
        } else if nr == TRANSFER_CODE_ERROR {
            AsyncIoTransferStatus::Error
        } else if nr == TRANSFER_CODE_TIMED_OUT {
            AsyncIoTransferStatus::Timeout
        } else if nr == TRANSFER_CODE_CANCELLED {
            AsyncIoTransferStatus::Cancelled
        } else if nr == TRANSFER_CODE_STALL {
            AsyncIoTransferStatus::Stall
        } else if nr == TRANSFER_CODE_NO_DEVICE {
            AsyncIoTransferStatus::NoDevice
        } else if nr == TRANSFER_CODE_OVERFLOW {
            AsyncIoTransferStatus::Overflow
        } else {
            AsyncIoTransferStatus::Unknown
        }
    }
}

impl From<i32> for AsyncIoTransferStatus {
    /// Decodes a native status code.
    fn from(nr: i32) -> (r: AsyncIoTransferStatus) {
        AsyncIoTransferStatus::from_code(nr)
    }
}

impl vstd::std_specs::convert::FromSpecImpl<i32> for AsyncIoTransferStatus {
    open spec fn obeys_from_spec() -> bool {
        true
    }

    open spec fn from_spec(nr: i32) -> AsyncIoTransferStatus {
        spec_status_of_code(nr)
    }
}

} // verus!
