//! The hook for choosing how callers mark ownership of a context or a
//! device handle.

use vstd::prelude::*;

verus! {

/// A family of marker values: an implementor picks the marker type under
/// which borrowed or reference-counted owners are carried through the
/// API, and how one is made.
pub trait MarkerType<'a> {
    /// The marker values of this family.
    type Marker;

    /// Wraps a value as a marker of this family.
    fn construct<T>(t: T) -> Self::Marker;
}

} // verus!
