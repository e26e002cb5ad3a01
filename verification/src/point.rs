//! The interpolation capability and the built-in point types.

use vstd::prelude::*;
use crate::scalar::{lemma_lerp_coincident, lemma_lerp_endpoints, Scalar, UNITS_PER_ONE};

verus! {

/// A location that can be interpolated linearly towards another location of
/// the same type. This one operation is all that a curve asks of its points.
///
/// `lerp_spec` names the point that `lerp` returns, so that what a curve
/// computes can be stated for every point type. An implementation outside
/// verified code provides `lerp` and leaves `lerp_spec` without meaning.
pub trait Point: Sized {
    /// The point at parameter `t` on the line from `self` (at `t = 0`) to
    /// `other` (at `t = 1`).
    spec fn lerp_spec(&self, other: Self, t: Scalar) -> Self;

    /// Interpolates linearly from `self` to `other`. `t` is not clamped.
    fn lerp(&self, other: Self, t: Scalar) -> (r: Self)
        ensures
            r == self.lerp_spec(other, t),
    ;
}

/// A point of the plane.
#[derive(Clone, Copy, Debug, PartialOrd, PartialEq, Eq, Structural)]
pub struct TwoDimensionalPoint {
    pub x: Scalar,
    pub y: Scalar,
}

impl View for TwoDimensionalPoint {
    type V = (int, int);

    /// The coordinates `(x, y)`, in units.
    open spec fn view(&self) -> (int, int) {
        (self.x@, self.y@)
    }
}

impl TwoDimensionalPoint {
    /// The point with these coordinates.
    pub fn new(x: Scalar, y: Scalar) -> (p: Self)
        ensures
            p.x == x,
            p.y == y,
    {
        TwoDimensionalPoint { x, y }
    }

    /// The first coordinate.
    pub fn x(&self) -> (x: Scalar)
        ensures
            x == self.x,
    {
        self.x
    }

    /// The second coordinate.
    pub fn y(&self) -> (y: Scalar)
        ensures
            y == self.y,
    {
        self.y
    }
}

impl Point for TwoDimensionalPoint {
    /// Each coordinate is interpolated on its own.
    open spec fn lerp_spec(&self, other: Self, t: Scalar) -> Self {
        TwoDimensionalPoint { x: self.x.lerp_spec(other.x, t), y: self.y.lerp_spec(other.y, t) }
    }

    fn lerp(&self, other: Self, t: Scalar) -> (r: Self) {
        TwoDimensionalPoint { x: self.x.lerp(other.x, t), y: self.y.lerp(other.y, t) }
    }
}

/// Interpolating from a point of the plane to itself gives that point, at
/// every parameter.
pub proof fn lemma_lerp_coincident_2d(p: TwoDimensionalPoint, t: Scalar)
    ensures
        p.lerp_spec(p, t) == p,
{
    lemma_lerp_coincident(p.x, t);
    lemma_lerp_coincident(p.y, t);
}

/// Interpolation in the plane gives its first point at `t = 0` and its
/// second at `t = 1`.
pub proof fn lemma_lerp_endpoints_2d(a: TwoDimensionalPoint, b: TwoDimensionalPoint)
    ensures
        a.lerp_spec(b, Scalar { units: 0 }) == a,
        a.lerp_spec(b, Scalar { units: UNITS_PER_ONE }) == b,
{
    lemma_lerp_endpoints(a.x, b.x);
    lemma_lerp_endpoints(a.y, b.y);
}

/// A point of space.
#[derive(Clone, Copy, Debug, PartialOrd, PartialEq, Eq, Structural)]
pub struct ThreeDimensionalPoint {
    pub x: Scalar,
    pub y: Scalar,
    pub z: Scalar,
}

impl View for ThreeDimensionalPoint {
    type V = (int, int, int);

    /// The coordinates `(x, y, z)`, in units.
    open spec fn view(&self) -> (int, int, int) {
        (self.x@, self.y@, self.z@)
    }
}

impl Point for ThreeDimensionalPoint {
    /// Each coordinate is interpolated on its own.
    open spec fn lerp_spec(&self, other: Self, t: Scalar) -> Self {
        ThreeDimensionalPoint {
            x: self.x.lerp_spec(other.x, t),
            y: self.y.lerp_spec(other.y, t),
            z: self.z.lerp_spec(other.z, t),
        }
    }

    fn lerp(&self, other: Self, t: Scalar) -> (r: Self) {
        ThreeDimensionalPoint {
            x: self.x.lerp(other.x, t),
            y: self.y.lerp(other.y, t),
            z: self.z.lerp(other.z, t),
        }
    }
}

/// Interpolating from a point of space to itself gives that point, at every
/// parameter.
pub proof fn lemma_lerp_coincident_3d(p: ThreeDimensionalPoint, t: Scalar)
    ensures
        p.lerp_spec(p, t) == p,
{
    lemma_lerp_coincident(p.x, t);
    lemma_lerp_coincident(p.y, t);
    lemma_lerp_coincident(p.z, t);
}

} // verus!
