//! Options controlling how a spline is calculated.

use vstd::prelude::*;
use crate::points::Point;

verus! {

/// Default tension of the curve between the passed points: the bit pattern
/// of one half. Used when no tension is set in [`SplineOpts`] and the
/// current point carries no override.
pub const DEFAULT_TENSION: u64 = 0x3fe0_0000_0000_0000;

/// Default number of segments calculated between each two known points.
pub const DEFAULT_SEGMENTS: u32 = 16;

/// A list of options indicating how the spline should be calculated.
///
/// * `tension` - the bending strength of the curve, as a binary64 bit
///   pattern; usual values range from zero (straight) to one (very
///   rounded).
/// * `num_of_segments` - how many points are calculated between each two
///   known points; at least one. Zero would make every gap empty and is a
///   configuration error: the engine requires `num_of_segments >= 1`.
/// * `hidden_point_at_start` - a point that is not drawn, but the beginning
///   of the graph bends as if it were there.
/// * `hidden_point_at_end` - the same for the end of the graph.
/// * `disallow_x_stepping_back` - when set, each emitted `x` is clamped to
///   be at least the previously emitted `x`, so the output never steps
///   back horizontally.
#[derive(Clone, Copy, Debug)]
pub struct SplineOpts {
    pub tension: u64,
    pub num_of_segments: u32,
    pub hidden_point_at_start: Option<Point>,
    pub hidden_point_at_end: Option<Point>,
    pub disallow_x_stepping_back: bool,
}

impl SplineOpts {
    /// Creates a new one with the defaults.
    pub fn new() -> (r: Self)
        ensures
            r.tension == DEFAULT_TENSION,
            r.num_of_segments == DEFAULT_SEGMENTS,
            r.hidden_point_at_start is None,
            r.hidden_point_at_end is None,
            r.disallow_x_stepping_back == false,
    {
        SplineOpts {
            tension: DEFAULT_TENSION,
            num_of_segments: DEFAULT_SEGMENTS,
            hidden_point_at_start: None,
            hidden_point_at_end: None,
            disallow_x_stepping_back: false,
        }
    }

    /// Sets tension.
    pub fn tension(self, val: u64) -> (r: Self)
        ensures
            r.tension == val,
            r.num_of_segments == self.num_of_segments,
            r.hidden_point_at_start == self.hidden_point_at_start,
            r.hidden_point_at_end == self.hidden_point_at_end,
            r.disallow_x_stepping_back == self.disallow_x_stepping_back,
    {
        SplineOpts { tension: val, ..self }
    }

    /// Sets num_of_segments.
    pub fn num_of_segments(self, val: u32) -> (r: Self)
        ensures
            r.tension == self.tension,
            r.num_of_segments == val,
            r.hidden_point_at_start == self.hidden_point_at_start,
            r.hidden_point_at_end == self.hidden_point_at_end,
            r.disallow_x_stepping_back == self.disallow_x_stepping_back,
    {
        SplineOpts { num_of_segments: val, ..self }
    }

    /// Sets hidden_point_at_start.
    pub fn hidden_point_at_start(self, val: Point) -> (r: Self)
        ensures
            r.tension == self.tension,
            r.num_of_segments == self.num_of_segments,
            r.hidden_point_at_start == Some(val),
            r.hidden_point_at_end == self.hidden_point_at_end,
            r.disallow_x_stepping_back == self.disallow_x_stepping_back,
    {
        SplineOpts { hidden_point_at_start: Some(val), ..self }
    }

    /// Sets hidden_point_at_end.
    pub fn hidden_point_at_end(self, val: Point) -> (r: Self)
        ensures
            r.tension == self.tension,
            r.num_of_segments == self.num_of_segments,
            r.hidden_point_at_start == self.hidden_point_at_start,
            r.hidden_point_at_end == Some(val),
            r.disallow_x_stepping_back == self.disallow_x_stepping_back,
    {
        SplineOpts { hidden_point_at_end: Some(val), ..self }
    }

    /// Sets disallow_x_stepping_back.
    pub fn disallow_x_stepping_back(self, val: bool) -> (r: Self)
        ensures
            r.tension == self.tension,
            r.num_of_segments == self.num_of_segments,
            r.hidden_point_at_start == self.hidden_point_at_start,
            r.hidden_point_at_end == self.hidden_point_at_end,
            r.disallow_x_stepping_back == val,
    {
        SplineOpts { disallow_x_stepping_back: val, ..self }
    }

    /// Gets tension.
    pub fn get_tension(&self) -> (r: u64)
        ensures
            r == self.tension,
    {
        self.tension
    }

    /// Gets num_of_segments.
    pub fn get_num_of_segments(&self) -> (r: u32)
        ensures
            r == self.num_of_segments,
    {
        self.num_of_segments
    }

    /// Gets hidden_point_at_start.
    pub fn get_hidden_point_at_start(&self) -> (r: Option<&Point>)
        ensures
            match r {
                Some(p) => self.hidden_point_at_start == Some(*p),
                None => self.hidden_point_at_start is None,
            },
    {
        self.hidden_point_at_start.as_ref()
    }

    /// Gets hidden_point_at_end.
    pub fn get_hidden_point_at_end(&self) -> (r: Option<&Point>)
        ensures
            match r {
                Some(p) => self.hidden_point_at_end == Some(*p),
                None => self.hidden_point_at_end is None,
            },
    {
        self.hidden_point_at_end.as_ref()
    }
}

impl Default for SplineOpts {
    /// The defaults: tension one half, sixteen segments, no hidden points,
    /// no clamping.
    fn default() -> (r: Self)
        ensures
            r.tension == DEFAULT_TENSION,
            r.num_of_segments == DEFAULT_SEGMENTS,
            r.hidden_point_at_start is None,
            r.hidden_point_at_end is None,
            r.disallow_x_stepping_back == false,
    {
        SplineOpts::new()
    }
}

} // verus!
