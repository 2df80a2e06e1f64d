//! Fallible conversion traits that, unlike the ones in `core`, allow the
//! generic blanket implementation below.

use vstd::prelude::*;
use crate::err::Error;
use crate::points::{Point, Points};

verus! {

/// The counterpart of [`TryFrom`]: the conversion `self -> T`, failing
/// with `Self::Error`.
pub trait TryInto<T>: Sized {
    /// The type returned in the event of a conversion error.
    type Error;

    /// Performs the conversion.
    fn try_into(self) -> Result<T, Self::Error>;
}

/// A fallible conversion from `T`. Implemented for [`Points`] so that a
/// list of points can be validated while it is wrapped.
pub trait TryFrom<T>: Sized {
    /// The type returned in the event of a conversion error.
    type Error;

    /// Performs the conversion.
    fn try_from(value: T) -> Result<Self, Self::Error>;
}

// TryFrom implies TryInto
impl<T, U: TryFrom<T>> TryInto<U> for T {
    type Error = U::Error;

    fn try_into(self) -> Result<U, U::Error> {
        U::try_from(self)
    }
}

impl TryFrom<Vec<Point>> for Points {
    type Error = Error;

    fn try_from(value: Vec<Point>) -> (r: Result<Self, Error>)
        ensures
            match r {
                Ok(ps) => value@.len() >= 2 && ps@ == value@,
                Err(e) => value@.len() < 2 && e == Error::TooFewPoints,
            },
    {
        Points::try_from(value)
    }
}

} // verus!
