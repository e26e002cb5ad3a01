use bezier::point::{Point, ThreeDimensionalPoint, TwoDimensionalPoint};
use bezier::scalar::{Scalar, UNITS_PER_ONE};

fn scalar(value: f64) -> Scalar {
    Scalar::from_units((value * UNITS_PER_ONE as f64).round() as i64)
}

fn point(x: f64, y: f64) -> TwoDimensionalPoint {
    TwoDimensionalPoint::new(scalar(x), scalar(y))
}

#[test]
fn test_2d_lerp() {
    let a = point(0.0, 0.0);
    let b = point(1.0, 1.0);

    let res = a.lerp(b, scalar(0.5));

    assert_eq!(res, point(0.5, 0.5));
}

#[test]
fn scalar_keeps_its_units() {
    assert_eq!(Scalar::from_units(-42).units(), -42);
    assert_eq!(Scalar::zero().units(), 0);
    assert_eq!(Scalar::one().units(), 1_000_000_000);
    assert_eq!(Scalar::one().units(), UNITS_PER_ONE);
    assert_eq!(Scalar::from_units(7), Scalar { units: 7 });
}

#[test]
fn point_keeps_its_coordinates() {
    let p = TwoDimensionalPoint::new(Scalar::from_units(3), Scalar::from_units(-4));
    assert_eq!(p.x(), Scalar::from_units(3));
    assert_eq!(p.y(), Scalar::from_units(-4));
}

#[test]
fn scalar_lerp_follows_the_straight_formula() {
    // 2 + 0.25 * (10 - 2) = 4
    let r = scalar(2.0).lerp(scalar(10.0), scalar(0.25));
    assert_eq!(r.units(), 4_000_000_000);
    // 10 + 0.25 * (2 - 10) = 8
    let r = scalar(10.0).lerp(scalar(2.0), scalar(0.25));
    assert_eq!(r.units(), 8_000_000_000);
}

#[test]
fn scalar_lerp_reaches_both_ends() {
    let a = Scalar::from_units(-123_456_789_012);
    let b = Scalar::from_units(987_654_321_098);
    assert_eq!(a.lerp(b, Scalar::zero()), a);
    assert_eq!(a.lerp(b, Scalar::one()), b);
    let lowest = Scalar::from_units(i64::MIN);
    let highest = Scalar::from_units(i64::MAX);
    assert_eq!(lowest.lerp(highest, Scalar::zero()), lowest);
    assert_eq!(lowest.lerp(highest, Scalar::one()), highest);
    assert_eq!(highest.lerp(lowest, Scalar::one()), lowest);
}

#[test]
fn scalar_lerp_rounds_towards_negative_infinity() {
    // 0 + 0.5 * 1 unit = half a unit, rounded down to 0
    let r = Scalar::from_units(0).lerp(Scalar::from_units(1), scalar(0.5));
    assert_eq!(r.units(), 0);
    // 0 + 0.5 * (-1 unit) = minus half a unit, rounded down to -1
    let r = Scalar::from_units(0).lerp(Scalar::from_units(-1), scalar(0.5));
    assert_eq!(r.units(), -1);
    // 0 + (-0.5) * 3 units = -1.5 units, rounded down to -2
    let r = Scalar::from_units(0).lerp(Scalar::from_units(3), scalar(-0.5));
    assert_eq!(r.units(), -2);
    // 5 + 0.999999999 * 1 unit, rounded down to 5
    let r = Scalar::from_units(5).lerp(Scalar::from_units(6), Scalar::from_units(999_999_999));
    assert_eq!(r.units(), 5);
}

#[test]
fn scalar_lerp_extrapolates_outside_the_domain() {
    // 1 + 2 * (3 - 1) = 5
    assert_eq!(scalar(1.0).lerp(scalar(3.0), scalar(2.0)), scalar(5.0));
    // 1 + (-1) * (3 - 1) = -1
    assert_eq!(scalar(1.0).lerp(scalar(3.0), scalar(-1.0)), scalar(-1.0));
}

#[test]
fn scalar_lerp_saturates_at_the_limits() {
    let highest = Scalar::from_units(i64::MAX);
    let lowest = Scalar::from_units(i64::MIN);
    assert_eq!(Scalar::zero().lerp(highest, scalar(2.0)), highest);
    assert_eq!(Scalar::zero().lerp(highest, scalar(-2.0)), lowest);
    assert_eq!(lowest.lerp(highest, highest), highest);
    assert_eq!(lowest.lerp(highest, lowest), lowest);
    assert_eq!(highest.lerp(lowest, lowest), highest);
}

#[test]
fn lerp_between_coincident_points_stays_there() {
    let p = point(0.3, -7.25);
    for t in [-5.0, -0.5, 0.0, 0.1, 0.5, 1.0, 3.75] {
        assert_eq!(p.lerp(p, scalar(t)), p);
    }
    let limit = TwoDimensionalPoint::new(Scalar::from_units(i64::MAX), Scalar::from_units(i64::MIN));
    assert_eq!(limit.lerp(limit, Scalar::from_units(i64::MIN)), limit);
    assert_eq!(limit.lerp(limit, Scalar::from_units(i64::MAX)), limit);
}

#[test]
fn lerp_with_equal_x_is_not_special() {
    // A vertical segment: x stays, y moves.
    let a = point(2.0, 0.0);
    let b = point(2.0, 4.0);
    assert_eq!(a.lerp(b, scalar(0.25)), point(2.0, 1.0));
    assert_eq!(b.lerp(a, scalar(0.25)), point(2.0, 3.0));
}

#[test]
fn lerp_in_space_takes_each_coordinate_on_its_own() {
    let a = ThreeDimensionalPoint { x: scalar(0.0), y: scalar(1.0), z: scalar(-1.0) };
    let b = ThreeDimensionalPoint { x: scalar(1.0), y: scalar(1.0), z: scalar(3.0) };
    let r = a.lerp(b, scalar(0.25));
    assert_eq!(r, ThreeDimensionalPoint { x: scalar(0.25), y: scalar(1.0), z: scalar(0.0) });
    assert_eq!(a.lerp(a, scalar(0.7)), a);
}
