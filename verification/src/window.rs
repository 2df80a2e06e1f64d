//! The sliding window over the control points.
//!
//! For each of the `N - 1` gaps between consecutive control points the
//! engine needs four points: the previous one, the two ends of the gap and
//! the one after. At the two free ends of the curve the missing neighbour
//! is synthesized: a hidden point when the options provide one, else the
//! nearer end of the gap itself, which degenerates the tangent there.

use vstd::prelude::*;
use crate::opts::SplineOpts;
use crate::points::{Point, Points};

verus! {

/// The neighbour before the gap at `i`: for the first gap the hidden start
/// point when provided, else the gap's own first point; for every other
/// gap the control point before it.
pub open spec fn spec_window_prev(points: Seq<Point>, hidden_start: Option<Point>, i: int) -> Point {
    if i == 0 {
        match hidden_start {
            Some(p) => p,
            None => points[0],
        }
    } else {
        points[i - 1]
    }
}

/// The neighbour after the gap at `i`: for the last gap the hidden end
/// point when provided, else the gap's own second point; for every other
/// gap the control point after it.
pub open spec fn spec_window_next2(points: Seq<Point>, hidden_end: Option<Point>, i: int) -> Point {
    if i == points.len() - 2 {
        match hidden_end {
            Some(p) => p,
            None => points[i + 1],
        }
    } else {
        points[i + 2]
    }
}

/// The four points `(prev, current, next, next2)` that shape the segment
/// between control point `i` and control point `i + 1`.
pub open spec fn spec_window(points: Seq<Point>, opts: SplineOpts, i: int) -> (
    Point,
    Point,
    Point,
    Point,
) {
    (
        spec_window_prev(points, opts.hidden_point_at_start, i),
        points[i],
        points[i + 1],
        spec_window_next2(points, opts.hidden_point_at_end, i),
    )
}

impl Points {
    /// Returns the window `(prev, current, next, next2)` for the gap
    /// between point `index` and point `index + 1`, synthesizing the
    /// boundary neighbours.
    pub fn points_to_calc(&self, index: usize, opts: &SplineOpts) -> (r: (Point, Point, Point, Point))
        requires
            2 <= self@.len(),
            index < self@.len() - 1,
        ensures
            r == spec_window(self@, *opts, index as int),
    {
        let count = self.pts.len();
        let curr = self.pts[index];
        let next = self.pts[index + 1];
        let prev = if index == 0 {
            match opts.hidden_point_at_start {
                Some(p) => p,
                None => curr,
            }
        } else {
            self.pts[index - 1]
        };
        let next2 = if index == count - 2 {
            match opts.hidden_point_at_end {
                Some(p) => p,
                None => next,
            }
        } else {
            self.pts[index + 2]
        };
        (prev, curr, next, next2)
    }
}

/// With no hidden points the windows at the free ends are degenerate: the
/// first window's `prev` equals its own `current`, and the last window's
/// `next2` equals its own `next`, so the tangent contribution from beyond
/// each end is zero.
pub proof fn lemma_boundary_neighbor_symmetry(points: Seq<Point>, opts: SplineOpts)
    requires
        2 <= points.len(),
        opts.hidden_point_at_start is None,
        opts.hidden_point_at_end is None,
    ensures
        spec_window(points, opts, 0).0 == spec_window(points, opts, 0).1,
        spec_window(points, opts, points.len() - 2).3 == spec_window(
            points,
            opts,
            points.len() - 2,
        ).2,
{
}

} // verus!
