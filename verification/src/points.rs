//! The point and curve data model.

use vstd::prelude::*;
use crate::err::Error;
use crate::ieee::{abs_bits, lt_bits, sub_bits, fp_abs, fp_lt, fp_sub};

verus! {

/// Default precision used for point comparison in [`Point::approx_eq`]:
/// the bit pattern of one millionth.
pub const DEFAULT_APPROX_EQ_PRECISION: u64 = 0x3eb0_c6f7_a0b5_ed8d;

/// A point in the 2d coordinate system. Both coordinates are IEEE 754
/// binary64 bit patterns.
#[derive(Clone, Copy, Debug)]
pub struct Point {
    /// x-axis point value.
    pub x: u64,
    /// y-axis point value.
    pub y: u64,
    /// Optional tension of the curve between this point and the next point.
    pub tension: Option<u64>,
}

/// Two points are approximately equal when both coordinate differences are
/// strictly below the precision in the IEEE 754 order. A NaN coordinate
/// compares as unordered, so it is never approximately equal to anything.
pub open spec fn spec_approx_eq(a: Point, b: Point, precision: u64) -> bool {
    &&& lt_bits(abs_bits(sub_bits(a.x, b.x)), precision)
    &&& lt_bits(abs_bits(sub_bits(a.y, b.y)), precision)
}

/// The point with its x coordinate reflected about half of `width`:
/// `x` becomes `width - x`.
pub open spec fn spec_invert_h(p: Point, width: u64) -> Point {
    Point { x: sub_bits(width, p.x), y: p.y, tension: p.tension }
}

/// The point with its y coordinate reflected about half of `height`:
/// `y` becomes `height - y`.
pub open spec fn spec_invert_v(p: Point, height: u64) -> Point {
    Point { x: p.x, y: sub_bits(height, p.y), tension: p.tension }
}

impl Point {
    /// Creates a new point with no tension override.
    pub fn new(x: u64, y: u64) -> (r: Self)
        ensures
            r.x == x,
            r.y == y,
            r.tension is None,
    {
        Point { x, y, tension: None }
    }

    /// Creates a new point with a tension override for the curve between it
    /// and the next point.
    pub fn with_tension(x: u64, y: u64, tension: u64) -> (r: Self)
        ensures
            r.x == x,
            r.y == y,
            r.tension == Some(tension),
    {
        Point { x, y, tension: Some(tension) }
    }

    /// Tests the approximate equality of two points with the default
    /// precision, [`DEFAULT_APPROX_EQ_PRECISION`].
    pub fn approx_eq(&self, other: &Point) -> (r: bool)
        ensures
            r == spec_approx_eq(*self, *other, DEFAULT_APPROX_EQ_PRECISION),
    {
        self.approx_eq_with_precision(other, DEFAULT_APPROX_EQ_PRECISION)
    }

    /// Tests the approximate equality of two points with a specific
    /// precision.
    pub fn approx_eq_with_precision(&self, other: &Point, precision: u64) -> (r: bool)
        ensures
            r == spec_approx_eq(*self, *other, precision),
    {
        let dx = fp_abs(fp_sub(self.x, other.x));
        let dy = fp_abs(fp_sub(self.y, other.y));
        let near_x = fp_lt(dx, precision);
        let near_y = fp_lt(dy, precision);
        near_x && near_y
    }

    /// Inverts the x-value of the point based on the width of the canvas.
    pub fn invert_horizontally(&mut self, width: u64)
        ensures
            *final(self) == spec_invert_h(*old(self), width),
    {
        self.x = fp_sub(width, self.x);
    }

    /// Inverts the y-value of the point based on the height of the canvas.
    pub fn invert_vertically(&mut self, height: u64)
        ensures
            *final(self) == spec_invert_v(*old(self), height),
    {
        self.y = fp_sub(height, self.y);
    }
}

impl Default for Point {
    /// The origin: both coordinates are the all-zero bit pattern (the
    /// number zero), with no tension override.
    fn default() -> (r: Self)
        ensures
            r.x == 0,
            r.y == 0,
            r.tension is None,
    {
        Point { x: 0, y: 0, tension: None }
    }
}

/// The structured curve decoded from a flat alternating list
/// `[x0, y0, x1, y1, ...]`: one point per coordinate pair, with no tension.
pub open spec fn spec_from_flatten(values: Seq<u64>) -> Seq<Point> {
    Seq::new((values.len() / 2) as nat, |i: int| (Point {
        x: values[2 * i],
        y: values[2 * i + 1],
        tension: None,
    }))
}

/// The flat alternating list `[x0, y0, x1, y1, ...]` of a structured curve.
/// The tension overrides cannot be represented and are dropped.
pub open spec fn spec_to_flatten(points: Seq<Point>) -> Seq<u64> {
    Seq::new((points.len() * 2) as nat, |i: int|
        if i % 2 == 0 { points[i / 2].x } else { points[i / 2].y })
}

/// The same points with every tension override removed.
pub open spec fn spec_strip_tension(points: Seq<Point>) -> Seq<Point> {
    points.map_values(|p: Point| (Point { x: p.x, y: p.y, tension: None }))
}

/// Wrapper for source points. Prepares and validates points before
/// calculating the spline.
#[derive(Clone, Debug)]
pub struct Points {
    /// The underlying ordered list of points.
    pub pts: Vec<Point>,
}

impl View for Points {
    type V = Seq<Point>;

    open spec fn view(&self) -> Seq<Point> {
        self.pts@
    }
}

impl Points {
    /// Wraps a list of points without validating its length.
    pub fn from(points: Vec<Point>) -> (r: Points)
        ensures
            r@ == points@,
    {
        Points { pts: points }
    }

    /// Wraps a list of points, failing when fewer than two are passed.
    pub fn try_from(points: Vec<Point>) -> (r: Result<Points, Error>)
        ensures
            match r {
                Ok(ps) => points@.len() >= 2 && ps@ == points@,
                Err(e) => points@.len() < 2 && e == Error::TooFewPoints,
            },
    {
        if points.len() < 2 {
            return Err(Error::TooFewPoints);
        }
        Ok(Points { pts: points })
    }

    /// Decodes a flat sequence of binary64 bit patterns where the value at
    /// an even index is an `x` and the value at an odd index is the paired
    /// `y`. Fails with [`Error::MissingY`] when the count is odd, and with
    /// [`Error::TooFewPoints`] when fewer than two points result.
    pub fn try_from_flatten(values: &Vec<u64>) -> (r: Result<Points, Error>)
        ensures
            match r {
                Ok(ps) => values@.len() % 2 == 0 && values@.len() >= 4 && ps@
                    == spec_from_flatten(values@),
                Err(e) => {
                    ||| (values@.len() % 2 == 1 && e == Error::MissingY)
                    ||| (values@.len() % 2 == 0 && values@.len() < 4 && e == Error::TooFewPoints)
                },
            },
    {
        let len = values.len();
        if len % 2 == 1 {
            return Err(Error::MissingY);
        }
        if len < 4 {
            return Err(Error::TooFewPoints);
        }
        let count = len / 2;
        let mut v: Vec<Point> = Vec::new();
        for i in 0..count
            invariant
                len == values@.len(),
                len % 2 == 0,
                count == len / 2,
                v@.len() == i,
                forall|j: int| 0 <= j < i ==> v@[j] == spec_from_flatten(values@)[j],
        {
            proof {
                vstd::arithmetic::div_mod::lemma_fundamental_div_mod(len as int, 2);
            }
            let p = Point { x: values[2 * i], y: values[2 * i + 1], tension: None };
            v.push(p);
        }
        proof {
            assert(v@ =~= spec_from_flatten(values@));
        }
        Ok(Points { pts: v })
    }

    /// Gets a reference to the underlying list of points.
    pub fn get_ref(&self) -> (r: &Vec<Point>)
        ensures
            r@ == self@,
    {
        &self.pts
    }

    /// Gets a mutable reference to the underlying list of points.
    pub fn get_mut(&mut self) -> (r: &mut Vec<Point>)
        ensures
            *r == old(self).pts,
            final(self).pts == *final(r),
    {
        &mut self.pts
    }

    /// Consumes the `Points`, returning the wrapped list.
    pub fn into_inner(self) -> (r: Vec<Point>)
        ensures
            r@ == self@,
    {
        self.pts
    }

    /// Encodes the curve as a flat alternating list `[x0, y0, x1, y1, ...]`,
    /// dropping the tension overrides.
    pub fn into_flatten(&self) -> (r: Vec<u64>)
        ensures
            r@ == spec_to_flatten(self@),
    {
        let count = self.pts.len();
        let mut v: Vec<u64> = Vec::new();
        for i in 0..count
            invariant
                count == self.pts@.len(),
                v@.len() == i * 2,
                forall|j: int| 0 <= j < i * 2 ==> v@[j] == spec_to_flatten(self.pts@)[j],
        {
            let p = self.pts[i];
            proof {
                lemma_alternating_indices(i as int);
            }
            v.push(p.x);
            v.push(p.y);
        }
        proof {
            assert(v@ =~= spec_to_flatten(self@));
        }
        v
    }

    /// Inverts the x-value of all points based on the width of the canvas.
    pub fn invert_horizontally(&mut self, width: u64)
        ensures
            final(self)@ == old(self)@.map_values(|p: Point| spec_invert_h(p, width)),
    {
        let count = self.pts.len();
        for i in 0..count
            invariant
                count == self.pts@.len(),
                count == old(self)@.len(),
                forall|j: int| 0 <= j < i ==> self.pts@[j] == spec_invert_h(old(self)@[j], width),
                forall|j: int| i <= j < count ==> self.pts@[j] == old(self)@[j],
        {
            let p = self.pts[i];
            self.pts[i] = Point { x: fp_sub(width, p.x), y: p.y, tension: p.tension };
        }
        proof {
            assert(self@ =~= old(self)@.map_values(|p: Point| spec_invert_h(p, width)));
        }
    }

    /// Inverts the y-value of all points based on the height of the canvas.
    pub fn invert_vertically(&mut self, height: u64)
        ensures
            final(self)@ == old(self)@.map_values(|p: Point| spec_invert_v(p, height)),
    {
        let count = self.pts.len();
        for i in 0..count
            invariant
                count == self.pts@.len(),
                count == old(self)@.len(),
                forall|j: int| 0 <= j < i ==> self.pts@[j] == spec_invert_v(old(self)@[j], height),
                forall|j: int| i <= j < count ==> self.pts@[j] == old(self)@[j],
        {
            let p = self.pts[i];
            self.pts[i] = Point { x: p.x, y: fp_sub(height, p.y), tension: p.tension };
        }
        proof {
            assert(self@ =~= old(self)@.map_values(|p: Point| spec_invert_v(p, height)));
        }
    }
}

/// For any point index `i`, the flat positions of its coordinates, `2 i`
/// and `2 i + 1`, land back on point `i` when divided by two.
proof fn lemma_alternating_indices(i: int)
    requires
        0 <= i,
    ensures
        (2 * i) % 2 == 0,
        (2 * i) / 2 == i,
        (2 * i + 1) % 2 == 1,
        (2 * i + 1) / 2 == i,
{
    vstd::arithmetic::div_mod::lemma_fundamental_div_mod_converse(2 * i, 2, i, 0);
    vstd::arithmetic::div_mod::lemma_fundamental_div_mod_converse(2 * i + 1, 2, i, 1);
}

/// Decoding a flat list that was encoded from a structured curve restores
/// the curve, except that every tension override has been dropped.
pub proof fn lemma_flatten_round_trip(points: Seq<Point>)
    ensures
        spec_from_flatten(spec_to_flatten(points)) == spec_strip_tension(points),
{
    let flat = spec_to_flatten(points);
    vstd::arithmetic::div_mod::lemma_fundamental_div_mod_converse(
        points.len() as int * 2,
        2,
        points.len() as int,
        0,
    );
    assert forall|i: int| 0 <= i < points.len() implies spec_from_flatten(flat)[i]
        == spec_strip_tension(points)[i] by {
        lemma_alternating_indices(i);
    }
    assert(spec_from_flatten(spec_to_flatten(points)) =~= spec_strip_tension(points));
}

} // verus!
