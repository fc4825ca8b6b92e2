//! Scenario tests for the running table, completion dispatch and the
//! event pump.

use libusb_async::errors::AsyncError;
use libusb_async::status::AsyncIoTransferStatus;
use libusb_async::transfer::CompletionAction;
use libusb_async::UnixAsyncIoCallbackResult;
use libusb_async::UnixAsyncIoState;
use libusb_async::UnixAsyncIoTransferResult;

#[test]
fn fresh_state_is_empty() {
    let st = UnixAsyncIoState::new();
    assert_eq!(st.next_id, 0);
    assert!(st.running.is_empty());
    assert!(st.complete.is_empty());
}

#[test]
fn allocations_get_distinct_ids() {
    let mut st = UnixAsyncIoState::new();
    let mut ids = Vec::new();
    for _ in 0..16 {
        ids.push(st.allocate(false, 8));
    }
    for i in 0..ids.len() {
        for j in 0..ids.len() {
            if i != j {
                assert_ne!(ids[i], ids[j]);
            }
        }
    }
    assert_eq!(st.running.len(), 16);
}

#[test]
fn distinct_ids_even_after_cancel_between_allocations() {
    let mut st = UnixAsyncIoState::new();
    let id1 = st.allocate(false, 4);
    st.mark_submitted(id1, 0xbeef).unwrap();
    let handle = st.cancel(id1).unwrap();
    assert_eq!(handle, 0xbeef);
    // Cancellation is a request; the transfer stays running until the
    // native side completes it with a cancelled status.
    assert!(st.contains(id1));
    let id2 = st.allocate(false, 4);
    assert_ne!(id1, id2);
}

#[test]
fn id_probe_wraps_at_the_top_of_the_range() {
    let mut st = UnixAsyncIoState::new();
    st.next_id = usize::MAX;
    let id1 = st.allocate(false, 1);
    assert_eq!(id1, usize::MAX);
    let id2 = st.allocate(false, 1);
    assert_eq!(id2, 0);
}

#[test]
fn id_probe_skips_running_ids() {
    let mut st = UnixAsyncIoState::new();
    let id0 = st.allocate(false, 1);
    let id1 = st.allocate(false, 1);
    assert_eq!((id0, id1), (0, 1));
    st.next_id = 0;
    let id2 = st.allocate(false, 1);
    assert_eq!(id2, 2);
}

#[test]
fn cancel_unknown_id_is_an_error_and_changes_nothing() {
    let mut st = UnixAsyncIoState::new();
    let id = st.allocate(false, 4);
    let before_running = st.running.len();
    let r = st.cancel(id + 1);
    assert_eq!(r, Err(AsyncError::TransferNotRunning));
    assert_eq!(st.running.len(), before_running);
    assert!(st.complete.is_empty());
}

#[test]
fn cancel_before_submission_reports_not_submitted() {
    let mut st = UnixAsyncIoState::new();
    let id = st.allocate(false, 4);
    assert_eq!(st.cancel(id), Err(AsyncError::TransferNotSubmitted));
}

#[test]
fn mark_submitted_unknown_id_is_an_error() {
    let mut st = UnixAsyncIoState::new();
    assert_eq!(st.mark_submitted(3, 0x10), Err(AsyncError::TransferNotRunning));
}

#[test]
fn completion_without_callback_drains_as_unhandled() {
    let mut st = UnixAsyncIoState::new();
    let id = st.allocate(false, 64);
    st.mark_submitted(id, 0x2000).unwrap();
    let native_buf = vec![0u8; 64];
    let (data, has_callback) = st.begin_completion(id, 0, 64, native_buf).unwrap();
    assert!(!has_callback);
    assert_eq!(data.status, AsyncIoTransferStatus::Success);
    assert_eq!(data.actual_length, 64);
    let action = st
        .finish_completion(id, UnixAsyncIoCallbackResult::Unhandled(data))
        .unwrap();
    assert!(matches!(action, CompletionAction::Retired));
    assert!(!st.contains(id));

    let mut out = Vec::new();
    st.pump_after_events(0, &mut out).unwrap();
    assert_eq!(out.len(), 1);
    match &out[0] {
        (i, UnixAsyncIoTransferResult::Unhandled(d)) => {
            assert_eq!(*i, id);
            assert_eq!(d.actual_length, 64);
        }
        other => panic!("unexpected completion entry: {:?}", other),
    }
    assert!(st.complete.is_empty());
}

#[test]
fn handled_round_trip_returns_the_submitted_buffer() {
    let mut st = UnixAsyncIoState::new();
    let submitted: Vec<u8> = (0u8..64).collect();
    let id = st.allocate(true, submitted.len());
    st.mark_submitted(id, 0x3000).unwrap();

    // The native side repopulates the first `actual_length` bytes of the
    // submitted buffer; the rest is left as it was.
    let mut as_completed = submitted.clone();
    for i in 0..32 {
        as_completed[i] = 0xA5;
    }
    let (data, has_callback) = st
        .begin_completion(id, 0, 32, as_completed.clone())
        .unwrap();
    assert!(has_callback);
    assert_eq!(data.status, AsyncIoTransferStatus::Success);
    assert_eq!(data.actual_length, 32);
    assert_eq!(data.buf[..32], as_completed[..32]);
    assert_eq!(data.buf[32..], submitted[32..]);

    let action = st
        .finish_completion(id, UnixAsyncIoCallbackResult::Handled)
        .unwrap();
    assert!(matches!(action, CompletionAction::Retired));
    let mut out = Vec::new();
    st.pump_after_events(0, &mut out).unwrap();
    assert_eq!(out.len(), 1);
    assert!(matches!(out[0], (i, UnixAsyncIoTransferResult::Handled) if i == id));
}

#[test]
fn resubmitted_transfer_stays_running_and_off_the_completion_list() {
    let mut st = UnixAsyncIoState::new();
    let id = st.allocate(true, 8);
    st.mark_submitted(id, 0x4000).unwrap();
    let (data, _) = st.begin_completion(id, 0, 8, vec![1u8; 8]).unwrap();
    drop(data);
    let new_buf = vec![9u8; 16];
    let action = st
        .finish_completion(id, UnixAsyncIoCallbackResult::ReSubmit(new_buf.clone()))
        .unwrap();
    match action {
        CompletionAction::Resubmit(b) => assert_eq!(b, new_buf),
        other => panic!("unexpected action: {:?}", other),
    }
    assert!(st.contains(id));
    assert!(st.complete.is_empty());
    let mut out = Vec::new();
    st.pump_after_events(0, &mut out).unwrap();
    assert!(out.is_empty());

    // The record is intact under the same identifier: a second
    // completion for it dispatches normally.
    let (data2, _) = st.begin_completion(id, 3, 0, vec![9u8; 16]).unwrap();
    assert_eq!(data2.status, AsyncIoTransferStatus::Cancelled);
}

#[test]
fn rejected_resubmission_retires_with_the_native_error() {
    let mut st = UnixAsyncIoState::new();
    let id = st.allocate(true, 8);
    st.mark_submitted(id, 0x5000).unwrap();
    let (data, _) = st.begin_completion(id, 0, 8, vec![0u8; 8]).unwrap();
    drop(data);
    st.finish_completion(id, UnixAsyncIoCallbackResult::ReSubmit(vec![0u8; 8]))
        .unwrap();
    st.resubmit_failed(id, -4).unwrap();
    assert!(!st.contains(id));
    assert_eq!(st.complete.len(), 1);
    assert!(matches!(
        st.complete[0],
        (i, UnixAsyncIoTransferResult::Failed(libusb_async::UsbError::NoDevice)) if i == id
    ));
}

#[test]
fn completion_for_unknown_id_is_fatal() {
    let mut st = UnixAsyncIoState::new();
    let r = st.begin_completion(17, 0, 0, Vec::new());
    match r {
        Err(e) => {
            assert_eq!(e, AsyncError::UnknownTransfer);
            assert!(e.is_fatal());
        }
        Ok(_) => panic!("dispatch for an unknown id must fail"),
    }
}

#[test]
fn double_dispatch_reports_missing_buffer() {
    let mut st = UnixAsyncIoState::new();
    let id = st.allocate(false, 4);
    let (data, _) = st.begin_completion(id, 0, 4, vec![0u8; 4]).unwrap();
    drop(data);
    let r = st.begin_completion(id, 0, 4, vec![0u8; 4]);
    match r {
        Err(e) => {
            assert_eq!(e, AsyncError::MissingBuffer);
            assert!(e.is_fatal());
        }
        Ok(_) => panic!("a taken buffer must not be taken again"),
    }
}

#[test]
fn failed_event_handling_keeps_completions_and_reports_the_code() {
    let mut st = UnixAsyncIoState::new();
    let id = st.allocate(false, 2);
    let (data, _) = st.begin_completion(id, 0, 2, vec![0u8; 2]).unwrap();
    st.finish_completion(id, UnixAsyncIoCallbackResult::Unhandled(data))
        .unwrap();
    let mut out = Vec::new();
    let r = st.pump_after_events(-7, &mut out);
    assert_eq!(r, Err(AsyncError::Native(libusb_async::UsbError::Timeout)));
    assert!(out.is_empty());
    assert_eq!(st.complete.len(), 1);
}

#[test]
fn pump_swap_hands_back_the_callers_buffer_content() {
    let mut st = UnixAsyncIoState::new();
    let id = st.allocate(false, 1);
    let (data, _) = st.begin_completion(id, 0, 1, vec![7u8]).unwrap();
    st.finish_completion(id, UnixAsyncIoCallbackResult::Unhandled(data))
        .unwrap();
    let mut out = vec![(99usize, UnixAsyncIoTransferResult::Handled)];
    st.pump_after_events(0, &mut out).unwrap();
    assert_eq!(out.len(), 1);
    assert!(matches!(out[0], (i, _) if i == id));
    assert_eq!(st.complete.len(), 1);
    assert!(matches!(st.complete[0], (99, UnixAsyncIoTransferResult::Handled)));
}
