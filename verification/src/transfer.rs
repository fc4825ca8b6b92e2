//! Per-transfer records and the values that flow through completion
//! dispatch.
//!
//! The bytes of a transfer's data buffer are shared with the native
//! library between submission and completion, so the record itself does
//! not hold them: it tracks their presence and length, and the bytes
//! travel through the dispatch functions as owned arguments.  A record is
//! created when a transfer is allocated and removed from the running table
//! when a terminal outcome is reached; a resubmission keeps the record,
//! and its identifier, alive.

use vstd::prelude::*;

use crate::errors::UsbError;
use crate::status::AsyncIoTransferStatus;

verus! {

/// The running-table record of one in-flight transfer.
#[derive(Debug, Copy, Clone)]
pub struct UnixAsyncIoTransfer {
    /// The transfer's identifier, unique in the running table.
    pub id: usize,
    /// Whether a completion callback was registered at allocation.
    pub has_callback: bool,
    /// Whether the data buffer is with the transfer.  True from
    /// allocation on, false only inside the window of a completion
    /// dispatch between taking the buffer for the callback and either
    /// retiring the transfer or replacing the buffer on resubmission.
    pub buf_present: bool,
    /// The length of the transfer's data buffer.
    pub buf_len: usize,
    /// The token under which the native submission handle was recorded,
    /// `None` until the transfer is marked submitted.
    pub native: Option<usize>,
}

/// What a completion hands to the transfer's callback: the data buffer
/// as the native side left it, the number of bytes actually transferred,
/// and the decoded status.
#[derive(Debug)]
pub struct UnixAsyncIoCallbackData {
    /// The transfer's data buffer, ownership handed to the callback.
    pub buf: Vec<u8>,
    /// How many bytes the native side actually transferred.
    pub actual_length: usize,
    /// The decoded completion status.
    pub status: AsyncIoTransferStatus,
}

/// The directive a completion callback returns.
#[derive(Debug)]
pub enum UnixAsyncIoCallbackResult {
    /// The callback consumed the buffer; the transfer retires silently.
    Handled,
    /// The callback declined; the completion surfaces on the completion
    /// list as-is.
    Unhandled(UnixAsyncIoCallbackData),
    /// Resubmit the transfer under the same identifier with this buffer
    /// (which may be a new one).
    ReSubmit(Vec<u8>),
}

/// The outcome recorded on the completion list for a retired transfer.
#[derive(Debug)]
pub enum UnixAsyncIoTransferResult {
    /// The callback consumed the completion.
    Handled,
    /// Nobody consumed it; the completion data is surfaced to the drainer.
    Unhandled(UnixAsyncIoCallbackData),
    /// The transfer retired with an error (a rejected resubmission).
    Failed(UsbError),
}

/// What the driver must do with the native transfer structure after a
/// completion dispatch step.
#[derive(Debug)]
pub enum CompletionAction {
    /// The transfer retired: release the native transfer structure.
    Retired,
    /// The transfer stays running: install this buffer into the native
    /// transfer structure and resubmit it.
    Resubmit(Vec<u8>),
}

} // verus!
