use bezier::curve::QuadraticCurve;
use bezier::error::CurveError;
use bezier::point::TwoDimensionalPoint;
use bezier::scalar::{Scalar, UNITS_PER_ONE};

fn scalar(value: f64) -> Scalar {
    Scalar::from_units((value * UNITS_PER_ONE as f64).round() as i64)
}

fn point(x: f64, y: f64) -> TwoDimensionalPoint {
    TwoDimensionalPoint::new(scalar(x), scalar(y))
}

fn arch() -> QuadraticCurve {
    QuadraticCurve::new(point(0.0, 0.0), point(0.0, 1.0), point(1.0, 1.0), point(1.0, 0.0))
}

#[test]
fn four_points_are_kept_in_order() {
    let curve = arch();
    assert_eq!(curve.point(0), Ok(point(0.0, 0.0)));
    assert_eq!(curve.point(1), Ok(point(0.0, 1.0)));
    assert_eq!(curve.point(2), Ok(point(1.0, 1.0)));
    assert_eq!(curve.point(3), Ok(point(1.0, 0.0)));
}

#[test]
fn a_fifth_point_is_out_of_range() {
    let mut curve = arch();
    assert_eq!(curve.point(4), Err(CurveError::IndexOutOfRange { index: 4, count: 4 }));
    assert_eq!(
        curve.point(usize::MAX),
        Err(CurveError::IndexOutOfRange { index: usize::MAX, count: 4 })
    );
    assert_eq!(
        curve.set_point(4, point(5.0, 5.0)),
        Err(CurveError::IndexOutOfRange { index: 4, count: 4 })
    );
    assert_eq!(
        curve.set_point(17, point(5.0, 5.0)),
        Err(CurveError::IndexOutOfRange { index: 17, count: 4 })
    );
    assert_eq!(curve.point(3), Ok(point(1.0, 0.0)));
    assert_eq!(curve.get_point(scalar(0.5)), point(0.5, 0.75));
}

#[test]
fn a_replaced_point_is_read_back() {
    let mut curve = arch();
    assert_eq!(curve.set_point(1, point(0.0, 2.0)), Ok(()));
    assert_eq!(curve.set_point(2, point(1.0, 2.0)), Ok(()));
    assert_eq!(curve.point(0), Ok(point(0.0, 0.0)));
    assert_eq!(curve.point(1), Ok(point(0.0, 2.0)));
    assert_eq!(curve.point(2), Ok(point(1.0, 2.0)));
    assert_eq!(curve.point(3), Ok(point(1.0, 0.0)));
    assert_eq!(curve.get_point(scalar(0.5)), point(0.5, 1.5));
}

#[test]
fn four_points_always_evaluate() {
    let curve = arch();
    assert_eq!(curve.get_point(scalar(0.0)), point(0.0, 0.0));
    assert_eq!(curve.get_point(scalar(0.5)), point(0.5, 0.75));
    assert_eq!(curve.get_point(scalar(1.0)), point(1.0, 0.0));
}

#[test]
fn four_points_are_sampled() {
    let curve = arch();
    assert_eq!(curve.iter(scalar(0.0)).err(), Some(CurveError::InvalidStep));
    assert_eq!(curve.iter(scalar(-0.5)).err(), Some(CurveError::InvalidStep));
    let mut cursor = curve.iter(scalar(0.5)).unwrap();
    assert_eq!(cursor.next(), Some(point(0.0, 0.0)));
    assert_eq!(cursor.next(), Some(point(1.0, 0.0)));
    assert_eq!(cursor.next(), Some(point(1.0, 0.0)));
    assert_eq!(cursor.next(), None);
}
