//! The marker for the blocking (synchronous) I/O mode.

use vstd::prelude::*;

verus! {

/// The I/O mode with no asynchronous state: every transfer is issued by
/// a blocking native call, so a context in this mode carries nothing
/// beyond this marker.
#[derive(Debug, Copy, Clone)]
pub struct SyncIo;

impl SyncIo {
    /// The blocking mode's (empty) per-context state.
    pub fn new() -> SyncIo {
        SyncIo
    }

    /// The blocking mode's (empty) per-context handle.
    pub fn handle(&self) -> SyncIo {
        SyncIo
    }
}

} // verus!
