//! A thin wrapper around a borrowed slice of source points.

use vstd::prelude::*;

verus! {

/// Wrapper for source points: holds a reference to the caller's slice.
pub struct SrcPoints<'a, T> {
    pts: &'a [T],
}

impl<'a, T> View for SrcPoints<'a, T> {
    type V = Seq<T>;

    closed spec fn view(&self) -> Seq<T> {
        self.pts@
    }
}

impl<'a, T> SrcPoints<'a, T> {
    /// Constructs a new `SrcPoints` with a reference to the source slice.
    pub fn new(pts: &'a [T]) -> (r: Self)
        ensures
            r@ == pts@,
    {
        SrcPoints { pts }
    }

    /// Returns the reference to the inner slice.
    pub fn pts(&self) -> (r: &'a [T])
        ensures
            r@ == self@,
    {
        self.pts
    }
}

} // verus!
