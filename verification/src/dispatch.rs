//! Completion dispatch: the state-machine steps taken when the native
//! library reports that a transfer finished.
//!
//! The native callback may run on an arbitrary thread; the driver around
//! this crate catches there any unexpected failure and terminates the
//! process, because unwinding across the native boundary is undefined.
//! Under its lock the driver performs, in order: `begin_completion`,
//! which takes the buffer and builds the value handed to the callback;
//! the callback itself, if one was registered; and `finish_completion`
//! with the callback's directive (`Unhandled` when no callback exists),
//! which either retires the transfer onto the completion list or keeps it
//! running for resubmission.  If the native side then rejects the
//! resubmission, `resubmit_failed` retires the transfer with the error.

use vstd::prelude::*;

use crate::errors::AsyncError;
use crate::errors::spec_usb_error_of_code;
use crate::errors::UsbError;
use crate::status::spec_status_of_code;
use crate::status::AsyncIoTransferStatus;
use crate::table::UnixAsyncIoState;
use crate::transfer::CompletionAction;
use crate::transfer::UnixAsyncIoCallbackData;
use crate::transfer::UnixAsyncIoCallbackResult;
use crate::transfer::UnixAsyncIoTransfer;
use crate::transfer::UnixAsyncIoTransferResult;

verus! {

impl UnixAsyncIoState {
    /// Begins dispatching a completion for `id`: decodes the native
    /// status, takes the record's buffer (the caller supplies the bytes,
    /// which the native side held until now), and returns the completion
    /// data together with whether a callback was registered.
    ///
    /// Fails, changing nothing, on an identifier the table does not know
    /// (the native side violated its contract) or on a record whose
    /// buffer is already taken; both are fatal for the driver.
    pub fn begin_completion(&mut self, id: usize, status_code: i32, actual_length: usize, buf: Vec<
        u8,
    >) -> (r: Result<(UnixAsyncIoCallbackData, bool), AsyncError>)
        requires
            old(self).wf(),
        ensures
            final(self).wf(),
            r is Ok <==> old(self).contains_id(id) && old(self).record_of(id).buf_present,
            match r {
                Ok((data, has_callback)) => {
                    &&& data.buf == buf
                    &&& data.actual_length == actual_length
                    &&& data.status == spec_status_of_code(status_code)
                    &&& has_callback == old(self).record_of(id).has_callback
                    &&& final(self).running@ == old(self).running@.update(
                        old(self).idx_of(id),
                        (UnixAsyncIoTransfer { buf_present: false, ..old(self).record_of(id) }),
                    )
                    &&& final(self).contains_id(id)
                    &&& final(self).record_of(id) == (UnixAsyncIoTransfer {
                        buf_present: false,
                        ..old(self).record_of(id)
                    })
                    &&& final(self).complete == old(self).complete
                    &&& final(self).next_id == old(self).next_id
                },
                Err(e) => {
                    &&& *final(self) == *old(self)
                    &&& (e == AsyncError::UnknownTransfer || e == AsyncError::MissingBuffer)
                    &&& (e == AsyncError::UnknownTransfer <==> !old(self).contains_id(id))
                },
            },
    {
        match self.find_index(id) {
            Some(i) => {
                proof {
                    self.lemma_idx_of(i as int, id);
                }
                let mut rec = self.running[i];
                if !rec.buf_present {
                    return Err(AsyncError::MissingBuffer);
                }
                rec.buf_present = false;
                let has_callback = rec.has_callback;
                self.running.set(i, rec);
                proof {
                    assert forall|a: int, b: int|
                        0 <= a < b < self.running@.len() implies (
                    #[trigger] self.running@[a]).id != (#[trigger] self.running@[b]).id by {
                        assert(old(self).running@[a].id != old(self).running@[b].id);
                    }
                    self.lemma_idx_of(i as int, id);
                }
                let data = UnixAsyncIoCallbackData {
                    buf,
                    actual_length,
                    status: AsyncIoTransferStatus::from_code(status_code),
                };
                Ok((data, has_callback))
            },
            None => Err(AsyncError::UnknownTransfer),
        }
    }

    /// Finishes dispatching a completion for `id` with the callback's
    /// directive (`Unhandled`, carrying the completion data, when no
    /// callback was registered).
    ///
    /// On `Handled` and `Unhandled` the transfer retires: its record
    /// leaves the running table, the outcome is appended to the
    /// completion list, and the caller must release the native transfer
    /// structure.  On `ReSubmit` the record keeps its identifier, its
    /// buffer is marked present again with the new length, nothing is
    /// appended to the completion list, and the caller must install the
    /// returned buffer into the native transfer structure and resubmit
    /// it.  Fails, changing nothing, on an unknown identifier.
    pub fn finish_completion(&mut self, id: usize, directive: UnixAsyncIoCallbackResult) -> (r:
        Result<CompletionAction, AsyncError>)
        requires
            old(self).wf(),
        ensures
            final(self).wf(),
            r is Ok <==> old(self).contains_id(id),
            match r {
                Ok(action) => {
                    &&& match directive {
                        UnixAsyncIoCallbackResult::Handled => {
                            &&& action is Retired
                            &&& final(self).running@ == old(self).running@.remove(
                                old(self).idx_of(id),
                            )
                            &&& final(self).complete@ == old(self).complete@.push(
                                (id, UnixAsyncIoTransferResult::Handled),
                            )
                        },
                        UnixAsyncIoCallbackResult::Unhandled(data) => {
                            &&& action is Retired
                            &&& final(self).running@ == old(self).running@.remove(
                                old(self).idx_of(id),
                            )
                            &&& final(self).complete@ == old(self).complete@.push(
                                (id, UnixAsyncIoTransferResult::Unhandled(data)),
                            )
                        },
                        UnixAsyncIoCallbackResult::ReSubmit(b) => {
                            &&& action == CompletionAction::Resubmit(b)
                            &&& final(self).contains_id(id)
                            &&& final(self).record_of(id) == (UnixAsyncIoTransfer {
                                buf_present: true,
                                buf_len: b.len(),
                                ..old(self).record_of(id)
                            })
                            &&& final(self).running@ == old(self).running@.update(
                                old(self).idx_of(id),
                                (UnixAsyncIoTransfer {
                                    buf_present: true,
                                    buf_len: b.len(),
                                    ..old(self).record_of(id)
                                }),
                            )
                            &&& final(self).complete == old(self).complete
                        },
                    }
                    &&& final(self).next_id == old(self).next_id
                },
                Err(e) => {
                    &&& *final(self) == *old(self)
                    &&& e == AsyncError::UnknownTransfer
                    &&& !old(self).contains_id(id)
                },
            },
    {
        match self.find_index(id) {
            Some(i) => {
                proof {
                    self.lemma_idx_of(i as int, id);
                }
                match directive {
                    UnixAsyncIoCallbackResult::Handled => {
                        self.running.remove(i);
                        self.complete.push((id, UnixAsyncIoTransferResult::Handled));
                        proof {
                            self.lemma_wf_remove(*old(self), i as int);
                        }
                        Ok(CompletionAction::Retired)
                    },
                    UnixAsyncIoCallbackResult::Unhandled(data) => {
                        self.running.remove(i);
                        self.complete.push((id, UnixAsyncIoTransferResult::Unhandled(data)));
                        proof {
                            self.lemma_wf_remove(*old(self), i as int);
                        }
                        Ok(CompletionAction::Retired)
                    },
                    UnixAsyncIoCallbackResult::ReSubmit(b) => {
                        let mut rec = self.running[i];
                        rec.buf_present = true;
                        rec.buf_len = b.len();
                        self.running.set(i, rec);
                        proof {
                            assert(self.running@[i as int].id == id);
                            assert(self.contains_id(id));
                            assert forall|a2: int, b2: int|
                                0 <= a2 < b2 < self.running@.len() implies (
                            #[trigger] self.running@[a2]).id != (#[trigger] self.running@[b2]).id by {
                                assert(old(self).running@[a2].id != old(self).running@[b2].id);
                            }
                            self.lemma_idx_of(i as int, id);
                        }
                        Ok(CompletionAction::Resubmit(b))
                    },
                }
            },
            None => Err(AsyncError::UnknownTransfer),
        }
    }

    /// Retires a transfer whose resubmission the native library rejected:
    /// the record leaves the running table and the decoded native error
    /// is appended to the completion list as the transfer's outcome.
    /// Fails, changing nothing, on an unknown identifier.
    pub fn resubmit_failed(&mut self, id: usize, code: i32) -> (r: Result<(), AsyncError>)
        requires
            old(self).wf(),
        ensures
            final(self).wf(),
            r is Ok <==> old(self).contains_id(id),
            r is Ok ==> final(self).running@ == old(self).running@.remove(old(self).idx_of(id))
                && final(self).complete@ == old(self).complete@.push(
                (id, UnixAsyncIoTransferResult::Failed(spec_usb_error_of_code(code))),
            ) && final(self).next_id == old(self).next_id,
            r is Err ==> r == Err::<(), AsyncError>(AsyncError::UnknownTransfer) && *final(self)
                == *old(self) && !old(self).contains_id(id),
    {
        match self.find_index(id) {
            Some(i) => {
                proof {
                    self.lemma_idx_of(i as int, id);
                }
                self.running.remove(i);
                self.complete.push((id, UnixAsyncIoTransferResult::Failed(UsbError::from_code(code))));
                proof {
                    self.lemma_wf_remove(*old(self), i as int);
                }
                Ok(())
            },
            None => Err(AsyncError::UnknownTransfer),
        }
    }

    /// Removing an entry from a well-formed table keeps it well-formed.
    proof fn lemma_wf_remove(self, pre: UnixAsyncIoState, i: int)
        requires
            pre.wf(),
            0 <= i < pre.running@.len(),
            self.running@ == pre.running@.remove(i),
        ensures
            self.wf(),
    {
        assert forall|a: int, b: int|
            0 <= a < b < self.running@.len() implies (#[trigger] self.running@[a]).id != (
        #[trigger] self.running@[b]).id by {
            let a0 = if a < i {
                a
            } else {
                a + 1
            };
            let b0 = if b < i {
                b
            } else {
                b + 1
            };
            assert(pre.running@[a0].id != pre.running@[b0].id);
        }
    }
}

} // verus!
