//! What a curve evaluates to: De Casteljau's reduction, as a mathematical
//! function of the control points and the parameter.

use vstd::prelude::*;
use crate::point::{
    lemma_lerp_coincident_2d, lemma_lerp_coincident_3d, lemma_lerp_endpoints_2d, Point,
    ThreeDimensionalPoint, TwoDimensionalPoint,
};
use crate::scalar::{lemma_lerp_between, Scalar, UNITS_PER_ONE};

verus! {

/// One round of the reduction: each pair of neighbouring points is replaced
/// by its interpolation at `t`, which leaves one point fewer.
pub open spec fn reduce<P: Point>(points: Seq<P>, t: Scalar) -> Seq<P> {
    Seq::new((points.len() - 1) as nat, |i: int| points[i].lerp_spec(points[i + 1], t))
}

/// The point at parameter `t` of the curve with these control points:
/// the single point left after reducing round by round.
///
/// Meaningful for at least one point; a curve has at least two.
pub open spec fn evaluate<P: Point>(points: Seq<P>, t: Scalar) -> P
    decreases points.len(),
{
    if points.len() <= 1 {
        points[0]
    } else {
        evaluate(reduce(points, t), t)
    }
}

/// A curve of two control points is the line between them.
pub proof fn lemma_evaluate_line<P: Point>(a: P, b: P, t: Scalar)
    ensures
        evaluate(seq![a, b], t) == a.lerp_spec(b, t),
{
    reveal_with_fuel(evaluate, 2);
}

/// Where interpolating from `p` to `p` at `t` gives `p`, a curve whose
/// control points all lie on `p` evaluates to `p` at `t`.
pub proof fn lemma_evaluate_coincident<P: Point>(points: Seq<P>, p: P, t: Scalar)
    requires
        points.len() >= 1,
        forall|i: int| 0 <= i < points.len() ==> points[i] == p,
        p.lerp_spec(p, t) == p,
    ensures
        evaluate(points, t) == p,
    decreases points.len(),
{
    if points.len() > 1 {
        lemma_evaluate_coincident(reduce(points, t), p, t);
    }
}

/// Coincident control points in the plane: the curve stays on them, at
/// every parameter. Two such points are the smallest case.
pub proof fn lemma_coincident_points_2d(
    points: Seq<TwoDimensionalPoint>,
    p: TwoDimensionalPoint,
    t: Scalar,
)
    requires
        points.len() >= 1,
        forall|i: int| 0 <= i < points.len() ==> points[i] == p,
    ensures
        evaluate(points, t) == p,
{
    lemma_lerp_coincident_2d(p, t);
    lemma_evaluate_coincident(points, p, t);
}

/// Coincident control points in space: the curve stays on them, at every
/// parameter.
pub proof fn lemma_coincident_points_3d(
    points: Seq<ThreeDimensionalPoint>,
    p: ThreeDimensionalPoint,
    t: Scalar,
)
    requires
        points.len() >= 1,
        forall|i: int| 0 <= i < points.len() ==> points[i] == p,
    ensures
        evaluate(points, t) == p,
{
    lemma_lerp_coincident_3d(p, t);
    lemma_evaluate_coincident(points, p, t);
}

/// A line in the plane starts on its first control point and ends on its
/// second.
pub proof fn lemma_line_endpoints_2d(a: TwoDimensionalPoint, b: TwoDimensionalPoint)
    ensures
        evaluate(seq![a, b], Scalar { units: 0 }) == a,
        evaluate(seq![a, b], Scalar { units: UNITS_PER_ONE }) == b,
{
    lemma_lerp_endpoints_2d(a, b);
    lemma_evaluate_line(a, b, Scalar { units: 0 });
    lemma_evaluate_line(a, b, Scalar { units: UNITS_PER_ONE });
}

/// Whether every one of `points` lies in the box between the corners `low`
/// and `high`.
pub open spec fn within_box(
    points: Seq<TwoDimensionalPoint>,
    low: TwoDimensionalPoint,
    high: TwoDimensionalPoint,
) -> bool {
    forall|i: int|
        0 <= i < points.len() ==> {
            &&& low.x@ <= (#[trigger] points[i]).x@ <= high.x@
            &&& low.y@ <= points[i].y@ <= high.y@
        }
}

/// Inside the domain `[0, 1]` a curve in the plane stays in every box that
/// holds its control points. So no coordinate saturates there: saturation
/// is met only by extrapolating.
pub proof fn lemma_evaluate_within_box(
    points: Seq<TwoDimensionalPoint>,
    t: Scalar,
    low: TwoDimensionalPoint,
    high: TwoDimensionalPoint,
)
    requires
        points.len() >= 1,
        0 <= t@ <= UNITS_PER_ONE,
        within_box(points, low, high),
    ensures
        low.x@ <= evaluate(points, t).x@ <= high.x@,
        low.y@ <= evaluate(points, t).y@ <= high.y@,
    decreases points.len(),
{
    if points.len() > 1 {
        let next = reduce(points, t);
        assert forall|i: int| 0 <= i < next.len() implies {
            &&& low.x@ <= (#[trigger] next[i]).x@ <= high.x@
            &&& low.y@ <= next[i].y@ <= high.y@
        } by {
            assert(within_box(seq![points[i], points[i + 1]], low, high));
            lemma_lerp_between(points[i].x, points[i + 1].x, t);
            lemma_lerp_between(points[i].y, points[i + 1].y, t);
        }
        lemma_evaluate_within_box(next, t, low, high);
    } else {
        assert(low.x@ <= points[0].x@ <= high.x@);
    }
}

} // verus!
