use cubic_spline::{
    flatten_to_tuples, Error, Point, Points, SplineOpts, SplineResult, SrcPoints, TryInto,
    DEFAULT_SEGMENTS, DEFAULT_TENSION,
};

#[test]
fn opts_defaults_and_builder() {
    let opts = SplineOpts::default();
    assert_eq!(opts.get_num_of_segments(), DEFAULT_SEGMENTS);
    assert_eq!(opts.get_tension(), DEFAULT_TENSION);
    assert_eq!(f64::from_bits(opts.get_tension()), 0.5);
    assert!(opts.get_hidden_point_at_start().is_none());
    assert!(opts.get_hidden_point_at_end().is_none());

    let start = Point::new(1.0f64.to_bits(), 2.0f64.to_bits());
    let end = Point::new(3.0f64.to_bits(), 4.0f64.to_bits());
    let built = SplineOpts::new()
        .tension(0.7f64.to_bits())
        .num_of_segments(33)
        .hidden_point_at_start(start)
        .hidden_point_at_end(end)
        .disallow_x_stepping_back(true);
    assert_eq!(f64::from_bits(built.get_tension()), 0.7);
    assert_eq!(built.get_num_of_segments(), 33);
    assert_eq!(built.get_hidden_point_at_start().unwrap().x, start.x);
    assert_eq!(built.get_hidden_point_at_end().unwrap().y, end.y);
    assert!(built.disallow_x_stepping_back);
    assert!(!opts.disallow_x_stepping_back);
}

#[test]
fn point_constructors() {
    let p = Point::new(1.5f64.to_bits(), 2.5f64.to_bits());
    assert_eq!(f64::from_bits(p.x), 1.5);
    assert_eq!(f64::from_bits(p.y), 2.5);
    assert!(p.tension.is_none());

    let q = Point::with_tension(1.5f64.to_bits(), 2.5f64.to_bits(), 0.25f64.to_bits());
    assert_eq!(f64::from_bits(q.tension.unwrap()), 0.25);

    let o = Point::default();
    assert_eq!(f64::from_bits(o.x), 0.0);
    assert_eq!(f64::from_bits(o.y), 0.0);
    assert!(o.tension.is_none());
}

#[test]
fn point_approx_eq() {
    let a = Point::new(1.2f64.to_bits(), 3.5f64.to_bits());
    let b = Point::new(1.2f64.to_bits(), 3.5f64.to_bits());
    assert!(a.approx_eq(&b));

    let c = Point::new(1.2f64.to_bits(), 3.6f64.to_bits());
    assert!(!a.approx_eq(&c));

    let close = Point::new(1.000_001f64.to_bits(), 1.0f64.to_bits());
    let exact = Point::new(1.0f64.to_bits(), 1.0f64.to_bits());
    assert!(exact.approx_eq_with_precision(&close, 0.000_1f64.to_bits()));

    let off = Point::new(1.000_1f64.to_bits(), 1.0f64.to_bits());
    assert!(off.approx_eq_with_precision(&exact, 0.01f64.to_bits()));
    assert!(!off.approx_eq_with_precision(&exact, 0.000_01f64.to_bits()));

    // a NaN coordinate is unordered, so nothing is near it
    let nan = Point::new(f64::NAN.to_bits(), 1.0f64.to_bits());
    assert!(!nan.approx_eq(&nan));
}

#[test]
fn point_inversion() {
    let mut p = Point::new(1.0f64.to_bits(), 3.0f64.to_bits());
    p.invert_horizontally(3.0f64.to_bits());
    assert_eq!(f64::from_bits(p.x), 2.0);
    assert_eq!(f64::from_bits(p.y), 3.0);

    let mut q = Point::new(1.0f64.to_bits(), 3.0f64.to_bits());
    q.invert_vertically(7.0f64.to_bits());
    assert_eq!(f64::from_bits(q.x), 1.0);
    assert_eq!(f64::from_bits(q.y), 4.0);
}

#[test]
fn points_inversion() {
    let mut pts = Points::from(vec![
        Point::new(1.0f64.to_bits(), 3.0f64.to_bits()),
        Point::new(2.0f64.to_bits(), 2.0f64.to_bits()),
    ]);
    pts.invert_horizontally(7.0f64.to_bits());
    let inverted: Vec<(f64, f64)> = pts
        .get_ref()
        .iter()
        .map(|p| (f64::from_bits(p.x), f64::from_bits(p.y)))
        .collect();
    assert_eq!(inverted, vec![(6.0, 3.0), (5.0, 2.0)]);

    pts.invert_vertically(7.0f64.to_bits());
    let inverted: Vec<(f64, f64)> = pts
        .get_ref()
        .iter()
        .map(|p| (f64::from_bits(p.x), f64::from_bits(p.y)))
        .collect();
    assert_eq!(inverted, vec![(6.0, 4.0), (5.0, 5.0)]);
}

#[test]
fn points_accessors() {
    let src = vec![
        Point::new(1.0f64.to_bits(), 2.0f64.to_bits()),
        Point::new(3.0f64.to_bits(), 4.0f64.to_bits()),
    ];
    let pts = Points::from(src.clone());
    assert_eq!(pts.get_ref().len(), 2);
    let inner = pts.into_inner();
    assert_eq!(inner.len(), 2);
    assert_eq!(inner[1].x, src[1].x);

    let ok = Points::try_from(src).unwrap();
    assert_eq!(ok.get_ref().len(), 2);

    let through_trait: Result<Points, Error> = TryInto::try_into(vec![
        Point::new(1.0f64.to_bits(), 2.0f64.to_bits()),
        Point::new(3.0f64.to_bits(), 4.0f64.to_bits()),
    ]);
    assert!(through_trait.is_ok());

    let too_few: Result<Points, Error> = TryInto::try_into(Vec::<Point>::new());
    assert_eq!(too_few.unwrap_err(), Error::TooFewPoints);
}

#[test]
fn points_get_mut_edits_the_curve() {
    let mut pts = Points::from(vec![
        Point::new(1.0f64.to_bits(), 2.0f64.to_bits()),
        Point::new(3.0f64.to_bits(), 4.0f64.to_bits()),
    ]);
    let inner: &mut Vec<Point> = pts.get_mut();
    inner.push(Point::new(7.7f64.to_bits(), 1.3f64.to_bits()));
    inner[1].x = 5.5f64.to_bits();
    inner.last_mut().unwrap().tension = Some(0.7f64.to_bits());

    assert_eq!(pts.get_ref().len(), 3);
    assert_eq!(f64::from_bits(pts.get_ref()[1].x), 5.5);
    assert_eq!(pts.get_ref()[2].tension, Some(0.7f64.to_bits()));

    let out = pts.calc_spline(&cubic_spline::SplineOpts::new().num_of_segments(33)).unwrap();
    assert_eq!(out.get_ref().len(), 67);
}

#[test]
fn flatten_round_trip_drops_tension() {
    let pts = Points::from(vec![
        Point::with_tension(1.0f64.to_bits(), 2.0f64.to_bits(), 0.9f64.to_bits()),
        Point::new(3.0f64.to_bits(), 4.0f64.to_bits()),
    ]);
    let flat = pts.into_flatten();
    assert_eq!(
        flat.iter().map(|v| f64::from_bits(*v)).collect::<Vec<f64>>(),
        vec![1.0, 2.0, 3.0, 4.0]
    );
    let back = Points::try_from_flatten(&flat).unwrap();
    assert!(back.get_ref()[0].tension.is_none());
    assert_eq!(back.get_ref()[1].y, 4.0f64.to_bits());
}

#[test]
fn flatten_to_tuples_pairs_adjacent_values() {
    let raw: Vec<u64> = vec![
        10.0f64.to_bits(),
        20.0f64.to_bits(),
        30.0f64.to_bits(),
        40.0f64.to_bits(),
        50.0f64.to_bits(),
    ];
    let pairs = flatten_to_tuples(&raw);
    assert_eq!(pairs.len(), 2);
    assert_eq!(f64::from_bits(pairs[0].0), 10.0);
    assert_eq!(f64::from_bits(pairs[0].1), 20.0);
    assert_eq!(f64::from_bits(pairs[1].0), 30.0);
    assert_eq!(f64::from_bits(pairs[1].1), 40.0);

    let empty: Vec<u64> = vec![];
    assert!(flatten_to_tuples(&empty).is_empty());
}

#[test]
fn src_points_wrapper() {
    let raw: Vec<(f64, f64)> = vec![(1.0, 2.0), (3.0, 4.0)];
    let wrapped = SrcPoints::new(&raw);
    assert_eq!(wrapped.pts().len(), 2);
    assert_eq!(wrapped.pts()[1], (3.0, 4.0));
}

#[test]
fn spline_result_wrapper() {
    let mut result: SplineResult<f64> = SplineResult::new();
    assert!(result.pts().is_empty());
    result.push(4.5);
    result.pts().push(6.5);
    assert_eq!(result.get(), vec![4.5, 6.5]);

    let mut sized: SplineResult<(f64, f64)> = SplineResult::with_capacity(10);
    assert!(sized.pts().is_empty());

    let mut defaulted: SplineResult<f64> = Default::default();
    assert!(defaulted.pts().is_empty());
}

#[test]
fn error_messages() {
    assert_eq!(Error::MissingY.msg(), "Passed values is not even. Last `y` is missing");
    assert_eq!(
        Error::TooFewPoints.msg(),
        "Too few points. There should be more than one"
    );
    assert_ne!(Error::MissingY, Error::TooFewPoints);
}
