//! Cubic spline interpolation within the range of a discrete set of known
//! points, with Catmull-Rom-style tangent estimation.
//!
//! Coordinates are IEEE 754 binary64 numbers carried as raw 64-bit patterns
//! (`u64`), so the whole computation can be stated and verified bit for bit:
//! the arithmetic itself is performed by a software IEEE 754 implementation
//! behind a handful of trusted wrappers (see `ieee`), and every other step —
//! validation, the sliding window over the control points, the Hermite basis
//! evaluation and the assembly of the output — is verified against an exact
//! specification.

pub mod calc;
pub mod convert;
pub mod err;
pub mod ieee;
pub mod opts;
pub mod points;
pub mod result;
pub mod src_points;
pub mod tfti;
pub mod window;

pub use calc::calc_spline;
pub use convert::flatten_to_tuples;
pub use err::Error;
pub use ieee::{abs_bits, add_bits, bits_of_u32, div_bits, lt_bits, mul_bits, sub_bits};
pub use opts::{SplineOpts, DEFAULT_SEGMENTS, DEFAULT_TENSION};
pub use points::{Point, Points, DEFAULT_APPROX_EQ_PRECISION};
pub use result::SplineResult;
pub use src_points::SrcPoints;
pub use tfti::{TryFrom, TryInto};
