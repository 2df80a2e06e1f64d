//! A wrapper around the growing list of calculated points.

use vstd::prelude::*;

verus! {

/// Wrapper for the resulting vector of points.
pub struct SplineResult<T> {
    pts: Vec<T>,
}

impl<T> View for SplineResult<T> {
    type V = Seq<T>;

    closed spec fn view(&self) -> Seq<T> {
        self.pts@
    }
}

impl<T> SplineResult<T> {
    /// Constructs a new, empty `SplineResult<T>`.
    pub fn new() -> (r: Self)
        ensures
            r@ == Seq::<T>::empty(),
    {
        SplineResult { pts: Vec::new() }
    }

    /// Constructs a new, empty `SplineResult<T>` whose vector has the
    /// specified capacity.
    pub fn with_capacity(capacity: usize) -> (r: Self)
        ensures
            r@ == Seq::<T>::empty(),
    {
        SplineResult { pts: Vec::with_capacity(capacity) }
    }

    /// Moves the resulting points out of the `SplineResult`.
    pub fn get(self) -> (r: Vec<T>)
        ensures
            r@ == self@,
    {
        self.pts
    }

    /// Gets a mutable reference to the inner vector.
    pub fn pts(&mut self) -> (r: &mut Vec<T>)
        ensures
            (*r)@ == old(self)@,
            final(self)@ == (*final(r))@,
    {
        &mut self.pts
    }

    /// Appends one calculated point.
    pub fn push(&mut self, value: T)
        ensures
            final(self)@ == old(self)@.push(value),
    {
        self.pts.push(value);
    }
}

impl<T> Default for SplineResult<T> {
    /// The same as [`SplineResult::new`]: empty.
    fn default() -> (r: Self)
        ensures
            r@ == Seq::<T>::empty(),
    {
        SplineResult::new()
    }
}

} // verus!
