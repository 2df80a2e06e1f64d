//! The interpolation engine: cubic Hermite basis evaluation over the
//! sliding window, one gap at a time.

use vstd::prelude::*;
use crate::err::Error;
use crate::ieee::{
    add_bits, bits_of_u32, div_bits, lt_bits, mul_bits, sub_bits, fp_add, fp_div, fp_lt, fp_mul,
    fp_of_u32, fp_sub,
};
use crate::opts::SplineOpts;
use crate::points::{Point, Points, spec_from_flatten, spec_strip_tension, spec_to_flatten};
use crate::points::lemma_flatten_round_trip;
use crate::window::spec_window;
use vstd::arithmetic::div_mod::{
    lemma_div_by_self, lemma_div_is_ordered, lemma_fundamental_div_mod_converse,
};
use vstd::arithmetic::mul::{
    lemma_mul_inequality, lemma_mul_is_distributive_add_other_way, lemma_mul_nonnegative,
};

verus! {

/// The tension that shapes the segment whose current control point is
/// `curr`: the point's own override when it has one, else the global one.
pub open spec fn spec_effective_tension(curr: Point, opts: SplineOpts) -> u64 {
    match curr.tension {
        Some(t) => t,
        None => opts.tension,
    }
}

/// One tangent component: the difference of the two neighbouring
/// coordinates, scaled by the tension.
pub open spec fn spec_tangent(to: u64, from: u64, tension: u64) -> u64 {
    mul_bits(sub_bits(to, from), tension)
}

/// One coordinate of one interpolated sample: the cubic Hermite basis at
/// parameter `t / n`, weighting the two ends of the gap and the two
/// tangent components.
pub open spec fn spec_hermite(curr: u64, next: u64, t1: u64, t2: u64, t: u32, n: u32) -> u64 {
    let st = div_bits(bits_of_u32(t), bits_of_u32(n));
    let st_pow2 = mul_bits(st, st);
    let st_pow3 = mul_bits(st_pow2, st);
    let st_pow2x3 = mul_bits(bits_of_u32(3), st_pow2);
    let st_pow3x2 = mul_bits(bits_of_u32(2), st_pow3);
    let c1 = add_bits(sub_bits(st_pow3x2, st_pow2x3), bits_of_u32(1));
    let c2 = sub_bits(st_pow2x3, st_pow3x2);
    let c3 = add_bits(sub_bits(st_pow3, mul_bits(bits_of_u32(2), st_pow2)), st);
    let c4 = sub_bits(st_pow3, st_pow2);
    add_bits(
        add_bits(add_bits(mul_bits(c1, curr), mul_bits(c2, next)), mul_bits(c3, t1)),
        mul_bits(c4, t2),
    )
}

/// Sample `t` of the gap at `i`: both coordinates from the Hermite basis,
/// with the tangents taken over the window and scaled by the effective
/// tension. The emitted point never carries a tension override.
pub open spec fn spec_sample(points: Seq<Point>, opts: SplineOpts, i: int, t: u32) -> Point {
    let w = spec_window(points, opts, i);
    let tension = spec_effective_tension(w.1, opts);
    let t1x = spec_tangent(w.2.x, w.0.x, tension);
    let t2x = spec_tangent(w.3.x, w.1.x, tension);
    let t1y = spec_tangent(w.2.y, w.0.y, tension);
    let t2y = spec_tangent(w.3.y, w.1.y, tension);
    Point {
        x: spec_hermite(w.1.x, w.2.x, t1x, t2x, t, opts.num_of_segments),
        y: spec_hermite(w.1.y, w.2.y, t1y, t2y, t, opts.num_of_segments),
        tension: None,
    }
}

/// The whole output curve for `N` control points and `n` segments per
/// gap: `(N - 1) * n` interpolated samples, gap by gap with the parameter
/// running over `[0, 1)`, followed by the last control point itself,
/// emitted exactly once so that internal joins are not duplicated.
pub open spec fn spec_spline(points: Seq<Point>, opts: SplineOpts) -> Seq<Point> {
    let n = opts.num_of_segments as int;
    Seq::new(
        ((points.len() - 1) * n + 1) as nat,
        |idx: int|
            if idx == (points.len() - 1) * n {
                (Point { x: points.last().x, y: points.last().y, tension: None })
            } else {
                spec_sample(points, opts, idx / n, (idx % n) as u32)
            },
    )
}

/// The same points with each `x` from the second one on clamped to be at
/// least the previously emitted `x` in the IEEE order, walked front to
/// back so that every comparison is against the actual previous emitted
/// point. `y` and tension are untouched.
pub open spec fn spec_clamp_x(points: Seq<Point>) -> Seq<Point>
    decreases points.len(),
{
    if points.len() <= 1 {
        points
    } else {
        let prefix = spec_clamp_x(points.drop_last());
        let prev_x = prefix.last().x;
        let p = points.last();
        prefix.push(
            Point {
                x: if lt_bits(p.x, prev_x) {
                    prev_x
                } else {
                    p.x
                },
                y: p.y,
                tension: p.tension,
            },
        )
    }
}

/// Clamping never changes how many points there are.
pub proof fn lemma_clamp_x_len(points: Seq<Point>)
    ensures
        spec_clamp_x(points).len() == points.len(),
    decreases points.len(),
{
    if points.len() > 1 {
        lemma_clamp_x_len(points.drop_last());
    }
}

/// What the engine hands back for a valid curve: the interpolated samples
/// of [`spec_spline`], passed through the monotonic-x clamp when the
/// options ask for it.
pub open spec fn spec_spline_output(points: Seq<Point>, opts: SplineOpts) -> Seq<Point> {
    if opts.disallow_x_stepping_back {
        spec_clamp_x(spec_spline(points, opts))
    } else {
        spec_spline(points, opts)
    }
}

/// One tangent component, computed as the spec states it.
fn tangent(to: u64, from: u64, tension: u64) -> (r: u64)
    ensures
        r == spec_tangent(to, from, tension),
{
    fp_mul(fp_sub(to, from), tension)
}

/// One coordinate of one sample, computed as the spec states it.
fn hermite_sample(curr: u64, next: u64, t1: u64, t2: u64, t: u32, n: u32) -> (r: u64)
    ensures
        r == spec_hermite(curr, next, t1, t2, t, n),
{
    let st = fp_div(fp_of_u32(t), fp_of_u32(n));
    let st_pow2 = fp_mul(st, st);
    let st_pow3 = fp_mul(st_pow2, st);
    let st_pow2x3 = fp_mul(fp_of_u32(3), st_pow2);
    let st_pow3x2 = fp_mul(fp_of_u32(2), st_pow3);
    let c1 = fp_add(fp_sub(st_pow3x2, st_pow2x3), fp_of_u32(1));
    let c2 = fp_sub(st_pow2x3, st_pow3x2);
    let c3 = fp_add(fp_sub(st_pow3, fp_mul(fp_of_u32(2), st_pow2)), st);
    let c4 = fp_sub(st_pow3, st_pow2);
    fp_add(
        fp_add(fp_add(fp_mul(c1, curr), fp_mul(c2, next)), fp_mul(c3, t1)),
        fp_mul(c4, t2),
    )
}

/// Returns the points of the curve constructed within the range of the
/// passed points, using cubic spline interpolation.
///
/// Fails with [`Error::TooFewPoints`] exactly when fewer than two points
/// are passed; otherwise the output is exactly [`spec_spline_output`]: one
/// sample per basis evaluation, `(N - 1) * n + 1` points in all, ending on
/// the last control point, clamped monotonic in `x` when the options ask
/// for it.
///
/// The two preconditions are the caller's side of the options contract.
/// Zero segments per gap is a caller-configuration error, and the error
/// type's two variants both describe the points, not the options; so the
/// bound `num_of_segments >= 1` is rejected here as a precondition rather
/// than mapped onto an unrelated error value, and an unverified caller
/// must test it before the call. The second precondition is the machine
/// limit: the output length `(N - 1) * n + 1` must fit in `usize`.
pub fn calc_spline(points: &Points, opts: &SplineOpts) -> (r: Result<Points, Error>)
    requires
        1 <= opts.num_of_segments,
        (points@.len() - 1) * (opts.num_of_segments as int) + 1 <= usize::MAX,
    ensures
        match r {
            Ok(out) => {
                &&& 2 <= points@.len()
                &&& out@ == spec_spline_output(points@, *opts)
                &&& out@.len() == (points@.len() - 1) * (opts.num_of_segments as int) + 1
                &&& !opts.disallow_x_stepping_back ==> out@.last().x == points@.last().x
                &&& out@.last().y == points@.last().y
            },
            Err(e) => points@.len() < 2 && e == Error::TooFewPoints,
        },
{
    let len = points.pts.len();
    if len < 2 {
        return Err(Error::TooFewPoints);
    }
    let n = opts.num_of_segments;
    let nseg: usize = n as usize;
    let ghost gn: int = n as int;
    let ghost target = spec_spline(points@, *opts);
    proof {
        lemma_mul_nonnegative(len - 1, gn);
        assert(target.len() == (len - 1) * gn + 1);
    }
    let capacity = (len - 1) * nseg + 1;
    let mut result: Vec<Point> = Vec::with_capacity(capacity);
    proof {
        assert(result@ =~= target.subrange(0, 0 * gn));
    }
    for i in 0..(len - 1)
        invariant
            len == points@.len(),
            2 <= len,
            n == opts.num_of_segments,
            1 <= n,
            gn == n as int,
            target == spec_spline(points@, *opts),
            target.len() == (len - 1) * gn + 1,
            result@ == target.subrange(0, i * gn),
    {
        let curr = points.pts[i];
        let next = points.pts[i + 1];
        let prev = if i == 0 {
            match opts.hidden_point_at_start {
                Some(p) => p,
                None => curr,
            }
        } else {
            points.pts[i - 1]
        };
        let next2 = if i == len - 2 {
            match opts.hidden_point_at_end {
                Some(p) => p,
                None => next,
            }
        } else {
            points.pts[i + 2]
        };
        let ghost w = spec_window(points@, *opts, i as int);
        proof {
            assert(w == (prev, curr, next, next2));
        }
        let tension = match curr.tension {
            Some(t) => t,
            None => opts.tension,
        };
        let t1x = tangent(next.x, prev.x, tension);
        let t2x = tangent(next2.x, curr.x, tension);
        let t1y = tangent(next.y, prev.y, tension);
        let t2y = tangent(next2.y, curr.y, tension);
        for t in 0..n
            invariant
                len == points@.len(),
                2 <= len,
                n == opts.num_of_segments,
                1 <= n,
                gn == n as int,
                i < len - 1,
                target == spec_spline(points@, *opts),
                target.len() == (len - 1) * gn + 1,
                w == spec_window(points@, *opts, i as int),
                curr == w.1,
                next == w.2,
                tension == spec_effective_tension(w.1, *opts),
                t1x == spec_tangent(w.2.x, w.0.x, tension),
                t2x == spec_tangent(w.3.x, w.1.x, tension),
                t1y == spec_tangent(w.2.y, w.0.y, tension),
                t2y == spec_tangent(w.3.y, w.1.y, tension),
                result@ == target.subrange(0, i * gn + t),
        {
            let x = hermite_sample(curr.x, next.x, t1x, t2x, t, n);
            let y = hermite_sample(curr.y, next.y, t1y, t2y, t, n);
            proof {
                let idx = i as int * gn + t as int;
                lemma_mul_inequality(i as int + 1, len - 1, gn);
                lemma_mul_is_distributive_add_other_way(gn, i as int, 1);
                assert(idx < (len - 1) * gn);
                lemma_fundamental_div_mod_converse(idx, gn, i as int, t as int);
                assert(target[idx] == spec_sample(points@, *opts, i as int, t));
                assert(Point { x, y, tension: None } == spec_sample(points@, *opts, i as int, t));
                assert(target.subrange(0, idx).push(target[idx]) =~= target.subrange(0, idx + 1));
            }
            result.push(Point { x, y, tension: None });
        }
        proof {
            lemma_mul_is_distributive_add_other_way(gn, i as int, 1);
            assert(i as int * gn + gn == (i as int + 1) * gn);
        }
    }
    let last = points.pts[len - 1];
    result.push(Point { x: last.x, y: last.y, tension: None });
    proof {
        assert(target[(len - 1) * gn] == (Point { x: last.x, y: last.y, tension: None }));
        assert(result@ =~= target);
        lemma_mul_inequality(1, len - 1, gn);
        assert(2 <= target.len());
    }
    if opts.disallow_x_stepping_back {
        let total = result.len();
        proof {
            lemma_clamp_x_len(target);
            assert(result@.subrange(0, 1) =~= spec_clamp_x(target.subrange(0, 1)));
        }
        let mut i: usize = 1;
        while i < total
            invariant
                total == result@.len(),
                total == target.len(),
                2 <= total,
                1 <= i <= total,
                result@.subrange(0, i as int) == spec_clamp_x(target.subrange(0, i as int)),
                forall|j: int| i <= j < total ==> result@[j] == target[j],
            decreases total - i,
        {
            let prev_x = result[i - 1].x;
            let p = result[i];
            proof {
                assert(p == target[i as int]);
                assert(result@[i as int - 1] == result@.subrange(0, i as int).last());
                lemma_clamp_x_len(target.subrange(0, i as int));
            }
            if fp_lt(p.x, prev_x) {
                result[i] = Point { x: prev_x, y: p.y, tension: p.tension };
            }
            proof {
                let pre1 = target.subrange(0, i as int + 1);
                assert(pre1.drop_last() =~= target.subrange(0, i as int));
                assert(pre1.last() == target[i as int]);
                assert(result@.subrange(0, i as int + 1) =~= spec_clamp_x(pre1));
            }
            i = i + 1;
        }
        proof {
            assert(target.subrange(0, total as int) =~= target);
            assert(result@.subrange(0, total as int) =~= result@);
            assert(result@ == spec_clamp_x(target));
            assert(spec_clamp_x(target).last().y == target.last().y);
        }
    }
    Ok(Points { pts: result })
}

impl Points {
    /// The main function that does all the work: returns the points of the
    /// curve constructed within the range of these points. See
    /// [`calc_spline`].
    pub fn calc_spline(&self, opts: &SplineOpts) -> (r: Result<Points, Error>)
        requires
            1 <= opts.num_of_segments,
            (self@.len() - 1) * (opts.num_of_segments as int) + 1 <= usize::MAX,
        ensures
            match r {
                Ok(out) => {
                    &&& 2 <= self@.len()
                    &&& out@ == spec_spline_output(self@, *opts)
                    &&& out@.len() == (self@.len() - 1) * (opts.num_of_segments as int) + 1
                },
                Err(e) => self@.len() < 2 && e == Error::TooFewPoints,
            },
    {
        calc_spline(self, opts)
    }
}

/// Supplying a hidden start point can only change the first gap's
/// interpolated samples: from the first sample of the second gap onward,
/// every sample of [`spec_spline`] is the same with and without it. (The
/// monotonic-x clamp, when enabled, runs over the whole sample sequence
/// afterwards and can carry a raised `x` forward, so this isolation is a
/// law of the unclamped samples.)
pub proof fn lemma_hidden_start_isolation(
    points: Seq<Point>,
    with_hidden: SplineOpts,
    without: SplineOpts,
)
    requires
        2 <= points.len(),
        1 <= with_hidden.num_of_segments,
        with_hidden.num_of_segments == without.num_of_segments,
        with_hidden.tension == without.tension,
        with_hidden.hidden_point_at_end == without.hidden_point_at_end,
    ensures
        spec_spline(points, with_hidden).len() == spec_spline(points, without).len(),
        forall|idx: int|
            with_hidden.num_of_segments <= idx < spec_spline(points, with_hidden).len()
                ==> spec_spline(points, with_hidden)[idx] == spec_spline(points, without)[idx],
{
    let n = with_hidden.num_of_segments as int;
    let total = (points.len() - 1) * n + 1;
    lemma_mul_nonnegative(points.len() - 1, n);
    assert forall|idx: int| n <= idx < total implies spec_spline(points, with_hidden)[idx]
        == spec_spline(points, without)[idx] by {
        if idx != (points.len() - 1) * n {
            lemma_div_is_ordered(n, idx, n);
            lemma_div_by_self(n);
            let i = idx / n;
            assert(1 <= i);
            assert(spec_window(points, with_hidden, i) == spec_window(points, without, i));
        }
    }
}

/// Interpolating the curve that comes back from a flat round trip gives,
/// as a flat list, exactly what interpolating the tension-stripped curve
/// gives: the flat form carries no tension overrides and nothing else is
/// lost.
pub proof fn lemma_flat_structured_equivalence(points: Seq<Point>, opts: SplineOpts)
    ensures
        spec_to_flatten(spec_spline_output(spec_from_flatten(spec_to_flatten(points)), opts))
            == spec_to_flatten(spec_spline_output(spec_strip_tension(points), opts)),
{
    lemma_flatten_round_trip(points);
}

} // verus!
