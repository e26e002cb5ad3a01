use bezier::bezier::Bezier;
use bezier::error::CurveError;
use bezier::point::TwoDimensionalPoint;
use bezier::scalar::{Scalar, UNITS_PER_ONE};

fn scalar(value: f64) -> Scalar {
    Scalar::from_units((value * UNITS_PER_ONE as f64).round() as i64)
}

fn value(scalar: Scalar) -> f64 {
    scalar.units() as f64 / UNITS_PER_ONE as f64
}

fn point(x: f64, y: f64) -> TwoDimensionalPoint {
    TwoDimensionalPoint::new(scalar(x), scalar(y))
}

#[test]
fn bezier_test_get_point() {
    let mut curve = Bezier::<TwoDimensionalPoint>::new();
    curve.add_point(TwoDimensionalPoint::new(scalar(0.0), scalar(0.0)));
    curve.add_point(TwoDimensionalPoint::new(scalar(0.5), scalar(0.5)));
    curve.add_point(TwoDimensionalPoint::new(scalar(1.0), scalar(0.0)));

    let point = curve.get_point(scalar(0.5)).unwrap();
    assert_eq!(value(point.x()), 0.5);
    assert_eq!(value(point.y()), 0.25);
}

#[test]
fn bezier_order_follows_the_count() {
    let mut curve = Bezier::<TwoDimensionalPoint>::new();
    assert_eq!(curve.order(), None);
    curve.add_point(point(0.0, 0.0));
    assert_eq!(curve.order(), None);
    curve.add_point(point(1.0, 0.0));
    assert_eq!(curve.order(), Some(1));
    curve.add_point(point(2.0, 0.0));
    assert_eq!(curve.order(), Some(2));
}

#[test]
fn bezier_evaluation_needs_two_points() {
    let mut curve = Bezier::<TwoDimensionalPoint>::new();
    assert_eq!(curve.get_point(scalar(0.5)), Err(CurveError::UndefinedOrder));
    curve.add_point(point(0.0, 0.0));
    assert_eq!(curve.get_point(scalar(0.5)), Err(CurveError::UndefinedOrder));
    curve.add_point(point(4.0, -2.0));
    assert_eq!(curve.get_point(scalar(0.5)), Ok(point(2.0, -1.0)));
}

#[test]
fn bezier_is_sampled_like_a_curve() {
    let mut curve = Bezier::<TwoDimensionalPoint>::new();
    curve.add_point(point(0.0, 0.0));
    assert_eq!(curve.iter(scalar(0.5)).err(), Some(CurveError::UndefinedOrder));
    assert_eq!(curve.iter(scalar(0.0)).err(), Some(CurveError::InvalidStep));
    curve.add_point(point(1.0, 2.0));
    assert_eq!(curve.iter(scalar(-0.5)).err(), Some(CurveError::InvalidStep));

    let mut cursor = curve.iter(scalar(0.5)).unwrap();
    assert_eq!(cursor.next(), Some(point(0.0, 0.0)));
    assert_eq!(cursor.next(), Some(point(1.0, 2.0)));
    assert_eq!(cursor.next(), Some(point(1.0, 2.0)));
    assert_eq!(cursor.next(), None);
}

#[test]
fn bezier_clone_has_the_same_points() {
    let mut curve = Bezier::<TwoDimensionalPoint>::new();
    curve.add_point(point(0.0, 0.0));
    curve.add_point(point(1.0, 1.0));
    let mut copy = curve.clone();
    copy.add_point(point(2.0, 0.0));
    assert_eq!(curve.order(), Some(1));
    assert_eq!(copy.order(), Some(2));
    assert_eq!(curve.get_point(scalar(0.5)), Ok(point(0.5, 0.5)));
}
