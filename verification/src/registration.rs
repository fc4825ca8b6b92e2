//! The bridge between the native library's pollable descriptor set and
//! the hosting event loop's registration.
//!
//! The native library exposes the descriptors it needs monitored,
//! together with raw poll-readiness flags.  This module translates those
//! flags into the readiness vocabulary of the event loop, keeps the
//! translated set in a stable sorted order so that comparison against the
//! previously registered set is well-defined, and computes, when the set
//! changes between event-handling passes, exactly which descriptors must
//! leave the event loop's registration and which must join it.  At most
//! one registration is active per context at a time; a second
//! registration without an intervening deregistration is rejected before
//! anything is handed to the event loop.

use vstd::prelude::*;
use vstd::seq_lib::group_to_multiset_ensures;
use vstd::multiset::group_multiset_axioms;

use crate::errors::AsyncError;

verus! {

/// The poll-readiness flag for "input ready" (the POSIX `POLLIN` bit).
pub const POLL_INPUT_FLAG: u16 = 1;
/// The poll-readiness flag for "output ready" (the POSIX `POLLOUT` bit).
pub const POLL_OUTPUT_FLAG: u16 = 4;

/// One pollable descriptor with its readiness interest, in the event
/// loop's vocabulary.
#[derive(Debug, Copy, Clone, PartialEq, Eq, Structural)]
pub struct PollDesc {
    /// The OS-level file descriptor.
    pub fd: i32,
    /// Whether input readiness is monitored.
    pub readable: bool,
    /// Whether output readiness is monitored.
    pub writable: bool,
}

/// The readiness interest encoded as a small rank, for ordering.
pub open spec fn spec_readiness_rank(d: PollDesc) -> int {
    (if d.readable {
        1int
    } else {
        0int
    }) + (if d.writable {
        2int
    } else {
        0int
    })
}

/// The sort order of descriptors: by file descriptor, then by readiness
/// rank.  Total, so sorting under it is stable in meaning.
pub open spec fn desc_le(a: PollDesc, b: PollDesc) -> bool {
    a.fd < b.fd || (a.fd == b.fd && spec_readiness_rank(a) <= spec_readiness_rank(b))
}

/// Whether a descriptor sequence is sorted under `desc_le`.
pub open spec fn desc_sorted(s: Seq<PollDesc>) -> bool {
    forall|i: int, j: int| 0 <= i < j < s.len() ==> desc_le(s[i], s[j])
}

/// What one raw native entry, a file descriptor and its poll-readiness
/// flags, translates to.
pub open spec fn spec_translate_pollfd(e: (i32, u16)) -> PollDesc {
    (PollDesc {
        fd: e.0,
        readable: e.1 & POLL_INPUT_FLAG != 0,
        writable: e.1 & POLL_OUTPUT_FLAG != 0,
    })
}

/// The element-wise translation of a raw native descriptor list.
pub open spec fn spec_translated(raw: Seq<(i32, u16)>) -> Seq<PollDesc> {
    raw.map_values(|e: (i32, u16)| spec_translate_pollfd(e))
}

/// The descriptors of `a` that do not occur in `b`, in the order of `a`.
pub open spec fn spec_diff(a: Seq<PollDesc>, b: Seq<PollDesc>) -> Seq<PollDesc> {
    a.filter(|d: PollDesc| !b.contains(d))
}

/// Translates one raw native entry into the event loop's vocabulary.
pub fn translate_pollfd(fd: i32, events: u16) -> (r: PollDesc)
    ensures
        r == spec_translate_pollfd((fd, events)),
{
    PollDesc {
        fd,
        readable: events & POLL_INPUT_FLAG != 0,
        writable: events & POLL_OUTPUT_FLAG != 0,
    }
}

/// Inserting an element anywhere in a sequence adds exactly that element
/// to its multiset of contents.
proof fn lemma_insert_multiset(s: Seq<PollDesc>, pos: int, x: PollDesc)
    requires
        0 <= pos <= s.len(),
    ensures
        s.insert(pos, x).to_multiset() == s.to_multiset().insert(x),
{
    broadcast use group_to_multiset_ensures;
    broadcast use group_multiset_axioms;

    let t = s.insert(pos, x);
    assert(t.remove(pos) =~= s);
    assert(t[pos] == x);
    assert(t.to_multiset().remove(x) == s.to_multiset());
    assert(t.contains(x));
    assert(t.to_multiset().count(x) > 0);
    assert forall|a: PollDesc| t.to_multiset().count(a) == s.to_multiset().insert(x).count(
        a,
    ) by {
        if a == x {
            assert(t.to_multiset().remove(x).count(x) == t.to_multiset().count(x) - 1);
        } else {
            assert(t.to_multiset().remove(x).count(a) == t.to_multiset().count(a));
        }
    }
    assert(t.to_multiset() =~= s.to_multiset().insert(x));
}

/// The position at which `d` belongs in the sorted sequence `out`.
fn find_insert_pos(out: &Vec<PollDesc>, d: &PollDesc) -> (pos: usize)
    requires
        desc_sorted(out@),
    ensures
        pos <= out@.len(),
        forall|j: int| 0 <= j < pos ==> desc_le(out@[j], *d),
        forall|j: int| pos <= j < out@.len() ==> desc_le(*d, out@[j]),
{
    let n = out.len();
    let mut pos: usize = 0;
    while pos < n
        invariant
            pos <= n,
            n == out@.len(),
            desc_sorted(out@),
            forall|j: int| 0 <= j < pos ==> desc_le(out@[j], *d),
        ensures
            pos <= n,
            forall|j: int| 0 <= j < pos ==> desc_le(out@[j], *d),
            pos < n ==> !desc_le(out@[pos as int], *d),
        decreases n - pos,
    {
        let cur = out[pos];
        let le = if cur.fd < d.fd {
            true
        } else if cur.fd == d.fd {
            let ra: u8 = (if cur.readable {
                1u8
            } else {
                0u8
            }) + (if cur.writable {
                2u8
            } else {
                0u8
            });
            let rb: u8 = (if d.readable {
                1u8
            } else {
                0u8
            }) + (if d.writable {
                2u8
            } else {
                0u8
            });
            ra <= rb
        } else {
            false
        };
        if !le {
            break ;
        }
        pos = pos + 1;
    }
    proof {
        assert forall|j: int| pos <= j < out@.len() implies desc_le(*d, out@[j]) by {
            assert(!desc_le(out@[pos as int], *d));
            assert(desc_le(*d, out@[pos as int]));
            if j > pos {
                assert(desc_le(out@[pos as int], out@[j]));
            }
        }
    }
    pos
}

/// The translated native descriptor set, in stable sorted order: the
/// result is sorted under `desc_le` and holds exactly the translations
/// of the raw entries.
pub fn build_descriptor_set(raw: &Vec<(i32, u16)>) -> (r: Vec<PollDesc>)
    ensures
        desc_sorted(r@),
        r@.len() == raw@.len(),
        r@.to_multiset() == spec_translated(raw@).to_multiset(),
{
    broadcast use group_to_multiset_ensures;

    let n = raw.len();
    let mut out: Vec<PollDesc> = Vec::new();
    let mut i: usize = 0;
    proof {
        assert(spec_translated(raw@.subrange(0, 0)) =~= Seq::<PollDesc>::empty());
        assert(out@.to_multiset() =~= spec_translated(raw@.subrange(0, 0)).to_multiset());
    }
    while i < n
        invariant
            i <= n,
            n == raw@.len(),
            out@.len() == i,
            desc_sorted(out@),
            out@.to_multiset() == spec_translated(raw@.subrange(0, i as int)).to_multiset(),
        decreases n - i,
    {
        let entry = raw[i];
        let d = translate_pollfd(entry.0, entry.1);
        let pos = find_insert_pos(&out, &d);
        let ghost pre = out@;
        out.insert(pos, d);
        proof {
            broadcast use group_to_multiset_ensures;

            assert forall|a: int, b: int| 0 <= a < b < out@.len() implies desc_le(
                out@[a],
                out@[b],
            ) by {
                if a < pos && b > pos {
                    assert(desc_le(pre[a], pre[b - 1]));
                }
            }
            lemma_insert_multiset(pre, pos as int, d);
            assert((entry.0, entry.1) == raw@[i as int]);
            assert(d == spec_translate_pollfd(raw@[i as int]));
            assert(spec_translated(raw@.subrange(0, i + 1)) =~= spec_translated(
                raw@.subrange(0, i as int),
            ).push(d));
            assert(spec_translated(raw@.subrange(0, i as int)).push(d).to_multiset()
                == spec_translated(raw@.subrange(0, i as int)).to_multiset().insert(d));
            assert(out@.to_multiset() =~= spec_translated(raw@.subrange(0, i + 1)).to_multiset());
        }
        i = i + 1;
    }
    proof {
        assert(raw@.subrange(0, n as int) =~= raw@);
    }
    out
}

/// Whether two descriptor sequences are equal element for element.
pub fn desc_sets_equal(a: &Vec<PollDesc>, b: &Vec<PollDesc>) -> (r: bool)
    ensures
        r <==> a@ == b@,
{
    if a.len() != b.len() {
        proof {
            assert(a@ != b@);
        }
        return false;
    }
    let n = a.len();
    let mut i: usize = 0;
    while i < n
        invariant
            i <= n,
            n == a@.len(),
            n == b@.len(),
            forall|j: int| 0 <= j < i ==> a@[j] == b@[j],
        decreases n - i,
    {
        if !(a[i] == b[i]) {
            proof {
                assert(a@[i as int] != b@[i as int]);
            }
            return false;
        }
        i = i + 1;
    }
    proof {
        assert(a@ =~= b@);
    }
    true
}

/// Whether the sequence holds the given descriptor.
fn contains_desc(v: &Vec<PollDesc>, d: &PollDesc) -> (r: bool)
    ensures
        r == v@.contains(*d),
{
    let n = v.len();
    let mut i: usize = 0;
    while i < n
        invariant
            i <= n,
            n == v@.len(),
            forall|j: int| 0 <= j < i ==> v@[j] != *d,
        decreases n - i,
    {
        if v[i] == *d {
            return true;
        }
        i = i + 1;
    }
    false
}

/// The descriptors of `a` that do not occur in `b`, in the order of `a`.
fn descs_not_in(a: &Vec<PollDesc>, b: &Vec<PollDesc>) -> (r: Vec<PollDesc>)
    ensures
        r@ == spec_diff(a@, b@),
{
    let n = a.len();
    let mut out: Vec<PollDesc> = Vec::new();
    let mut i: usize = 0;
    proof {
        reveal_with_fuel(Seq::filter, 2);
        assert(out@ =~= spec_diff(a@.subrange(0, 0), b@));
    }
    while i < n
        invariant
            i <= n,
            n == a@.len(),
            out@ == spec_diff(a@.subrange(0, i as int), b@),
        decreases n - i,
    {
        let keep = !contains_desc(b, &a[i]);
        if keep {
            out.push(a[i]);
        }
        proof {
            reveal_with_fuel(Seq::filter, 2);
            let t = a@.subrange(0, i + 1);
            assert(t.drop_last() =~= a@.subrange(0, i as int));
            assert(t.last() == a@[i as int]);
            assert(out@ =~= spec_diff(t, b@));
        }
        i = i + 1;
    }
    proof {
        assert(a@.subrange(0, n as int) =~= a@);
    }
    out
}

/// An active event-loop registration: the opaque token the event loop
/// knows the context by, and the last registered descriptor set.
#[derive(Debug)]
pub struct DescriptorRegistration {
    /// The event loop's registration token.
    pub token: usize,
    /// The descriptor set registered under that token, in stable sorted
    /// order.
    pub descs: Vec<PollDesc>,
}

/// What `reconcile` tells the driver to do: which descriptors to remove
/// from the event loop's registration and which to add, all under the
/// stored token.
#[derive(Debug)]
pub struct ReconcilePlan {
    /// The registration token to act under.
    pub token: usize,
    /// Descriptors registered before but absent from the current set.
    pub removed: Vec<PollDesc>,
    /// Descriptors in the current set that were not registered before.
    pub added: Vec<PollDesc>,
}

/// The registration state of one context: at most one event-loop
/// registration is active at a time.
#[derive(Debug)]
pub struct RegistrationState {
    /// The active registration, if any.
    pub reg: Option<DescriptorRegistration>,
}

impl RegistrationState {
    /// Whether a registration is active.
    pub open spec fn is_registered(self) -> bool {
        self.reg is Some
    }

    /// The active registration's token.
    pub open spec fn spec_token(self) -> usize {
        self.reg->Some_0.token
    }

    /// The active registration's descriptor set.
    pub open spec fn spec_descs(self) -> Seq<PollDesc> {
        self.reg->Some_0.descs@
    }

    /// A state with no active registration.
    pub fn new() -> (r: RegistrationState)
        ensures
            !r.is_registered(),
    {
        RegistrationState { reg: None }
    }

    /// Records a registration of `descs` under `token`.  Rejected, before
    /// anything could be handed to the event loop, if a registration is
    /// already active: the native library does not support concurrent
    /// registration from multiple observers, so this is a fatal misuse.
    pub fn register(&mut self, token: usize, descs: Vec<PollDesc>) -> (r: Result<(), AsyncError>)
        ensures
            r is Ok <==> !old(self).is_registered(),
            r is Ok ==> final(self).is_registered() && final(self).spec_token() == token
                && final(self).spec_descs() == descs@,
            r is Err ==> r == Err::<(), AsyncError>(AsyncError::AlreadyRegistered) && *final(self)
                == *old(self),
    {
        match self.reg {
            Some(_) => Err(AsyncError::AlreadyRegistered),
            None => {
                self.reg = Some(DescriptorRegistration { token, descs });
                Ok(())
            },
        }
    }

    /// Clears the active registration and returns the descriptor set the
    /// driver must remove from the event loop.  Rejected if no
    /// registration is active (a fatal misuse).
    pub fn deregister(&mut self) -> (r: Result<Vec<PollDesc>, AsyncError>)
        ensures
            r is Ok <==> old(self).is_registered(),
            r is Ok ==> !final(self).is_registered() && r->Ok_0@ == old(self).spec_descs(),
            r is Err ==> r == Err::<Vec<PollDesc>, AsyncError>(AsyncError::NotRegistered)
                && *final(self) == *old(self),
    {
        match self.reg.take() {
            Some(dr) => Ok(dr.descs),
            None => Err(AsyncError::NotRegistered),
        }
    }

    /// Brings the stored registration up to date with the current
    /// descriptor set and returns the difference: the descriptors the
    /// driver must deregister are exactly those registered before and
    /// absent now, and the ones it must register are exactly those
    /// present now and not registered before, both under the unchanged
    /// token.  Rejected if no registration is active.
    pub fn reconcile(&mut self, current: Vec<PollDesc>) -> (r: Result<ReconcilePlan, AsyncError>)
        ensures
            r is Ok <==> old(self).is_registered(),
            match r {
                Ok(plan) => {
                    &&& plan.token == old(self).spec_token()
                    &&& plan.removed@ == spec_diff(old(self).spec_descs(), current@)
                    &&& plan.added@ == spec_diff(current@, old(self).spec_descs())
                    &&& final(self).is_registered()
                    &&& final(self).spec_token() == old(self).spec_token()
                    &&& final(self).spec_descs() == current@
                },
                Err(e) => e == AsyncError::NotRegistered && *final(self) == *old(self),
            },
    {
        match self.reg.take() {
            Some(dr) => {
                let removed = descs_not_in(&dr.descs, &current);
                let added = descs_not_in(&current, &dr.descs);
                let token = dr.token;
                self.reg = Some(DescriptorRegistration { token, descs: current });
                Ok(ReconcilePlan { token, removed, added })
            },
            None => Err(AsyncError::NotRegistered),
        }
    }
}

} // verus!
