//! The running table of in-flight transfers and the completion list.
//!
//! Identifiers are allocated by linear probing from a rotating cursor:
//! the cursor advances past every identifier still in use, wrapping at
//! the top of the range, so an identifier is unique among the transfers
//! running at any instant and may be reused once its transfer retires.

use vstd::prelude::*;
use vstd::seq_lib::*;
use vstd::set_lib::lemma_len_subset;

use crate::errors::AsyncError;
use crate::transfer::UnixAsyncIoTransfer;
use crate::transfer::UnixAsyncIoTransferResult;

verus! {

/// The shared state of the asynchronous I/O subsystem: the table of
/// running transfers, the rotating identifier cursor, and the list of
/// completed transfers awaiting a drain by the event pump.
#[derive(Debug)]
pub struct UnixAsyncIoState {
    /// The identifier probe cursor: the next candidate identifier.
    pub next_id: usize,
    /// The records of transfers submitted but not yet retired.
    pub running: Vec<UnixAsyncIoTransfer>,
    /// Completed transfers, appended by completion dispatch in the order
    /// the native library reported them, drained by the event pump.
    pub complete: Vec<(usize, UnixAsyncIoTransferResult)>,
}

/// The identifier probed `k` steps after `start`, wrapping at the top of
/// the `usize` range.
pub open spec fn probe_cand(start: usize, k: int) -> usize {
    if start + k <= usize::MAX {
        (start + k) as usize
    } else {
        (start + k - usize::MAX - 1) as usize
    }
}

impl UnixAsyncIoState {
    /// Whether some running transfer carries the identifier `id`.
    pub open spec fn contains_id(self, id: usize) -> bool {
        exists|i: int| 0 <= i < self.running@.len() && (#[trigger] self.running@[i]).id == id
    }

    /// The position of the running transfer with identifier `id`
    /// (meaningful when `contains_id(id)` holds; unique when `wf()` holds).
    pub open spec fn idx_of(self, id: usize) -> int {
        choose|i: int| 0 <= i < self.running@.len() && (#[trigger] self.running@[i]).id == id
    }

    /// The record of the running transfer with identifier `id`.
    pub open spec fn record_of(self, id: usize) -> UnixAsyncIoTransfer {
        self.running@[self.idx_of(id)]
    }

    /// Well-formedness: no two entries of the running table share an
    /// identifier.
    pub open spec fn wf(self) -> bool {
        forall|i: int, j: int|
            0 <= i < j < self.running@.len() ==> (#[trigger] self.running@[i]).id != (
            #[trigger] self.running@[j]).id
    }

    /// No two simultaneously-running transfers ever share an identifier:
    /// in a well-formed table, distinct entries carry distinct
    /// identifiers.  Every operation on the table requires and preserves
    /// well-formedness, so this holds across any sequence of allocate,
    /// cancel and completion steps.
    pub proof fn lemma_running_ids_unique(self, i: int, j: int)
        requires
            self.wf(),
            0 <= i < self.running@.len(),
            0 <= j < self.running@.len(),
            i != j,
        ensures
            self.running@[i].id != self.running@[j].id,
    {
    }

    /// In a well-formed table, an entry's position is the one `idx_of`
    /// denotes, so `record_of` describes that entry.
    pub proof fn lemma_idx_of(self, i: int, id: usize)
        requires
            self.wf(),
            0 <= i < self.running@.len(),
            self.running@[i].id == id,
        ensures
            self.contains_id(id),
            self.idx_of(id) == i,
            self.record_of(id) == self.running@[i],
    {
        assert(self.contains_id(id));
        let j = self.idx_of(id);
        if j != i {
            assert(self.running@[i].id != self.running@[j].id);
        }
    }

    /// If the probe has found `m` successive candidates all running, the
    /// table holds at least `m` entries: the candidates are pairwise
    /// distinct, and the table's identifiers are pairwise distinct.
    proof fn lemma_probe_exhausts(self, start: usize, m: int)
        requires
            self.wf(),
            0 <= m <= usize::MAX + 1,
            forall|j: int| 0 <= j < m ==> self.contains_id(#[trigger] probe_cand(start, j)),
        ensures
            m <= self.running@.len(),
    {
        let ids = self.running@.map_values(|t: UnixAsyncIoTransfer| t.id);
        assert(ids.no_duplicates());
        let cands = Seq::<usize>::new(m as nat, |j: int| probe_cand(start, j));
        assert(cands.no_duplicates()) by {
            assert forall|j1: int, j2: int|
                0 <= j1 < m && 0 <= j2 < m && j1 != j2 implies cands[j1] != cands[j2] by {
                assert(probe_cand(start, j1) != probe_cand(start, j2));
            }
        }
        assert forall|j: int| 0 <= j < m implies ids.contains(#[trigger] cands[j]) by {
            let id = probe_cand(start, j);
            let i = choose|i: int|
                0 <= i < self.running@.len() && (#[trigger] self.running@[i]).id == id;
            assert(ids[i] == id);
        }
        assert(cands.to_set().subset_of(ids.to_set())) by {
            assert forall|x: usize| cands.to_set().contains(x) implies ids.to_set().contains(
                x,
            ) by {
                let j = choose|j: int| 0 <= j < cands.len() && cands[j] == x;
                assert(ids.contains(cands[j]));
            }
        }
        cands.unique_seq_to_set();
        ids.lemma_cardinality_of_set();
        lemma_len_subset(cands.to_set(), ids.to_set());
    }

    /// An empty subsystem state: nothing running, nothing complete, the
    /// identifier cursor at zero.
    pub fn new() -> (r: UnixAsyncIoState)
        ensures
            r.wf(),
            r.next_id == 0,
            r.running@.len() == 0,
            r.complete@.len() == 0,
    {
        UnixAsyncIoState { next_id: 0, running: Vec::new(), complete: Vec::new() }
    }

    /// The position of the running entry with identifier `id`, if any.
    pub(crate) fn find_index(&self, id: usize) -> (r: Option<usize>)
        ensures
            match r {
                Some(i) => i < self.running@.len() && self.running@[i as int].id == id,
                None => !self.contains_id(id),
            },
    {
        let n = self.running.len();
        let mut i: usize = 0;
        while i < n
            invariant
                i <= n,
                n == self.running@.len(),
                forall|j: int| 0 <= j < i ==> (#[trigger] self.running@[j]).id != id,
            decreases n - i,
        {
            if self.running[i].id == id {
                return Some(i);
            }
            i = i + 1;
        }
        None
    }

    /// Whether a transfer with identifier `id` is currently running.
    pub fn contains(&self, id: usize) -> (r: bool)
        ensures
            r == self.contains_id(id),
    {
        self.find_index(id).is_some()
    }

    /// An identifier no running transfer carries: the first free
    /// candidate probed from the rotating cursor.
    fn probe_free_id(&self) -> (id: usize)
        requires
            self.wf(),
        ensures
            !self.contains_id(id),
            exists|k: int|
                {
                    &&& 0 <= k <= self.running@.len()
                    &&& id == probe_cand(self.next_id, k)
                    &&& (forall|j: int|
                        0 <= j < k ==> self.contains_id(#[trigger] probe_cand(self.next_id, j)))
                },
    {
        let ghost start = self.next_id;
        let n = self.running.len();
        let mut id: usize = self.next_id;
        let mut k: usize = 0;
        loop
            invariant
                self.wf(),
                k <= n,
                n == self.running@.len(),
                start == self.next_id,
                id == probe_cand(start, k as int),
                forall|j: int| 0 <= j < k ==> self.contains_id(#[trigger] probe_cand(start, j)),
            decreases n - k,
        {
            if !self.contains(id) {
                proof {
                    assert(0 <= k as int <= self.running@.len() && id == probe_cand(
                        self.next_id,
                        k as int,
                    ) && (forall|j: int|
                        0 <= j < k as int ==> self.contains_id(
                            #[trigger] probe_cand(self.next_id, j),
                        )));
                }
                return id;
            }
            proof {
                self.lemma_probe_exhausts(start, k + 1);
            }
            k = k + 1;
            id = if id == usize::MAX {
                0
            } else {
                id + 1
            };
        }
    }

    /// Allocates a fresh transfer record: probes, from the rotating
    /// cursor, the first identifier not in use, advances the cursor past
    /// it, and appends a record whose buffer is present with length
    /// `buf_len` and which has no native handle yet.
    pub fn allocate(&mut self, has_callback: bool, buf_len: usize) -> (id: usize)
        requires
            old(self).wf(),
        ensures
            final(self).wf(),
            !old(self).contains_id(id),
            exists|k: int|
                {
                    &&& 0 <= k <= old(self).running@.len()
                    &&& id == probe_cand(old(self).next_id, k)
                    &&& (forall|j: int|
                        0 <= j < k ==> old(self).contains_id(
                            #[trigger] probe_cand(old(self).next_id, j),
                        ))
                },
            final(self).next_id == (if id == usize::MAX {
                0usize
            } else {
                (id + 1) as usize
            }),
            final(self).running@ == old(self).running@.push(
                (UnixAsyncIoTransfer {
                    id,
                    has_callback,
                    buf_present: true,
                    buf_len,
                    native: None,
                }),
            ),
            final(self).complete == old(self).complete,
    {
        let id = self.probe_free_id();
        self.next_id = if id == usize::MAX {
            0
        } else {
            id + 1
        };
        let rec = UnixAsyncIoTransfer { id, has_callback, buf_present: true, buf_len, native: None };
        self.running.push(rec);
        proof {
            assert forall|a: int, b: int|
                0 <= a < b < self.running@.len() implies (#[trigger] self.running@[a]).id != (
            #[trigger] self.running@[b]).id by {
                if b == self.running@.len() - 1 {
                    assert(old(self).running@[a].id != id);
                }
            }
        }
        id
    }

    /// Records the native submission handle on the running entry for
    /// `id`.  Fails, changing nothing, if the identifier has no running
    /// entry — this should not happen under correct use, but submission
    /// races against construction, so it is checked rather than assumed.
    pub fn mark_submitted(&mut self, id: usize, native_handle: usize) -> (r: Result<
        (),
        AsyncError,
    >)
        requires
            old(self).wf(),
        ensures
            final(self).wf(),
            r is Ok <==> old(self).contains_id(id),
            r is Ok ==> final(self).running@ == old(self).running@.update(
                old(self).idx_of(id),
                (UnixAsyncIoTransfer {
                    native: Some(native_handle),
                    ..old(self).record_of(id)
                }),
            ),
            r is Ok ==> final(self).contains_id(id) && final(self).record_of(id) == (
            UnixAsyncIoTransfer { native: Some(native_handle), ..old(self).record_of(id) }),
            r is Ok ==> final(self).complete == old(self).complete && final(self).next_id == old(
                self,
            ).next_id,
            r is Err ==> r == Err::<(), AsyncError>(AsyncError::TransferNotRunning) && *final(self)
                == *old(self),
    {
        match self.find_index(id) {
            Some(i) => {
                proof {
                    self.lemma_idx_of(i as int, id);
                }
                let mut rec = self.running[i];
                rec.native = Some(native_handle);
                self.running.set(i, rec);
                proof {
                    assert forall|a: int, b: int|
                        0 <= a < b < self.running@.len() implies (
                    #[trigger] self.running@[a]).id != (#[trigger] self.running@[b]).id by {
                        assert(old(self).running@[a].id != old(self).running@[b].id);
                    }
                    self.lemma_idx_of(i as int, id);
                }
                Ok(())
            },
            None => Err(AsyncError::TransferNotRunning),
        }
    }

    /// The native handle on which a cancellation request for `id` must be
    /// issued.  Fails if the identifier is not currently running (the
    /// transfer already completed, or the caller passed a stale handle),
    /// or if the transfer was never marked submitted; in either case the
    /// caller learns that no native cancel call can be made, and this
    /// function itself changes nothing and calls nothing.
    pub fn cancel(&self, id: usize) -> (r: Result<usize, AsyncError>)
        requires
            self.wf(),
        ensures
            match r {
                Ok(h) => self.contains_id(id) && self.record_of(id).native == Some(h),
                Err(e) => {
                    &&& (e == AsyncError::TransferNotRunning || e
                        == AsyncError::TransferNotSubmitted)
                    &&& (e == AsyncError::TransferNotRunning <==> !self.contains_id(id))
                    &&& (e == AsyncError::TransferNotSubmitted ==> self.contains_id(id)
                        && self.record_of(id).native is None)
                },
            },
    {
        match self.find_index(id) {
            Some(i) => {
                proof {
                    self.lemma_idx_of(i as int, id);
                }
                match self.running[i].native {
                    Some(h) => Ok(h),
                    None => Err(AsyncError::TransferNotSubmitted),
                }
            },
            None => Err(AsyncError::TransferNotRunning),
        }
    }
}

} // verus!
