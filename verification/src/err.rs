//! The validation failures that constructing or interpolating a curve can
//! report.

use vstd::prelude::*;

verus! {

/// This type represents all possible errors that can occur when
/// constructing new spline points.
#[derive(Clone, Copy, Debug, PartialEq, Eq)]
pub enum Error {
    /// Thrown when passing flatten points and missing the last `y` value.
    MissingY,
    /// Thrown when there are less than **two** points passed.
    TooFewPoints,
}

impl Error {
    /// A short description of the failure.
    pub fn msg(&self) -> (r: &'static str)
        ensures
            *self == Error::MissingY ==> r@ == "Passed values is not even. Last `y` is missing"@,
            *self == Error::TooFewPoints ==> r@ == "Too few points. There should be more than one"@,
    {
        match self {
            Error::MissingY => "Passed values is not even. Last `y` is missing",
            Error::TooFewPoints => "Too few points. There should be more than one",
        }
    }
}

} // verus!
