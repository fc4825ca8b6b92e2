//! The per-iteration event pump.
//!
//! The hosting event loop calls the driver's pump when the context's
//! descriptors signal readiness.  One pump iteration is: `pump_begin`,
//! which refuses to proceed unless an event-loop registration exists;
//! the native zero-timeout event-handling call, made by the driver (the
//! loop already signalled readiness, so nothing blocks); then
//! `pump_after_events`, which on native success atomically swaps the
//! completion list with the caller's output buffer — each completed
//! transfer is delivered at most once — and on native failure wraps the
//! code and changes nothing; and finally descriptor reconciliation (see
//! `RegistrationState::reconcile`), which the driver attempts whether or
//! not event handling succeeded.

use vstd::prelude::*;

use crate::errors::AsyncError;
use crate::errors::spec_usb_error_of_code;
use crate::errors::NATIVE_OK;
use crate::errors::UsbError;
use crate::registration::RegistrationState;
use crate::table::UnixAsyncIoState;
use crate::transfer::UnixAsyncIoTransferResult;

verus! {

/// Gate of a pump iteration: a pump may run only after the event-loop
/// registration exists.  Its absence is recoverable — register first,
/// then pump — and nothing native may be called when this fails.
pub fn pump_begin(reg: &RegistrationState) -> (r: Result<(), AsyncError>)
    ensures
        r is Ok <==> reg.is_registered(),
        r is Err ==> r == Err::<(), AsyncError>(AsyncError::RegisterBeforeHandling),
{
    match reg.reg {
        Some(_) => Ok(()),
        None => Err(AsyncError::RegisterBeforeHandling),
    }
}

impl UnixAsyncIoState {
    /// Digests the result of the native event-handling call.  On success
    /// the completion list and the caller's output buffer are swapped —
    /// the caller takes ownership of every completion gathered since the
    /// last pump, and the list continues with whatever the caller passed
    /// in (normally empty).  On failure the decoded native error is
    /// returned and nothing changes; the caller still reconciles the
    /// descriptor set afterwards.
    pub fn pump_after_events(&mut self, code: i32, out: &mut Vec<(usize,
        UnixAsyncIoTransferResult)>) -> (r: Result<(), AsyncError>)
        ensures
            code == NATIVE_OK ==> r is Ok && final(self).complete@ == old(out)@ && final(out)@
                == old(self).complete@ && final(self).running == old(self).running
                && final(self).next_id == old(self).next_id,
            code != NATIVE_OK ==> r == Err::<(), AsyncError>(
                AsyncError::Native(spec_usb_error_of_code(code)),
            ) && *final(self) == *old(self) && *final(out) == *old(out),
    {
        if code == NATIVE_OK {
            core::mem::swap(&mut self.complete, out);
            Ok(())
        } else {
            Err(AsyncError::Native(UsbError::from_code(code)))
        }
    }
}

} // verus!
