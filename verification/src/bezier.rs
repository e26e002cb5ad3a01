//! Append-only curves: a [`Bezier`] is built up point by point, evaluated
//! and sampled, and gives no access to single control points.

use vstd::prelude::*;
use crate::curve::{evaluation, order_of, Curve};
use crate::error::CurveError;
use crate::point::Point;
use crate::sampling::sample_parameters;
use crate::scalar::Scalar;

pub use crate::curve::{Iter, Line};

verus! {

/// Represents an nth-order bezier curve whose control points, once added,
/// stay as they are.
#[derive(Debug)]
pub struct Bezier<P: Point + Copy> {
    curve: Curve<P>,
}

impl<P: Point + Copy> View for Bezier<P> {
    type V = Seq<P>;

    /// The control points, in the order in which they were added.
    closed spec fn view(&self) -> Seq<P> {
        self.curve@
    }
}

impl<P: Point + Copy> Clone for Bezier<P> {
    /// A curve with the same control points in the same order.
    fn clone(&self) -> (copy: Self)
        ensures
            copy@ == self@,
    {
        Bezier { curve: self.curve.clone() }
    }
}

impl<P: Point + Copy> Bezier<P> {
    /// A curve without control points.
    pub fn new() -> (bezier: Self)
        ensures
            bezier@ == Seq::<P>::empty(),
    {
        Bezier { curve: Curve::new() }
    }

    /// Returns a cursor that steps through the curve in `step`-sized
    /// segments. A step that is not positive is refused, and so is a curve
    /// that cannot be evaluated.
    pub fn iter(&self, step: Scalar) -> (r: Result<Iter<'_, P>, CurveError>)
        ensures
            (match r {
                Ok(cursor) => {
                    &&& step@ > 0
                    &&& self@.len() >= 2
                    &&& cursor.points() == self@
                    &&& cursor.pending() == sample_parameters(step@)
                },
                Err(CurveError::InvalidStep) => step@ <= 0,
                Err(CurveError::UndefinedOrder) => step@ > 0 && self@.len() < 2,
                Err(_) => false,
            }),
    {
        self.curve.iter(step)
    }

    /// Adds a point to the bezier curve.
    pub fn add_point(&mut self, point: P)
        ensures
            final(self)@ == old(self)@.push(point),
    {
        self.curve.add_point(point)
    }

    /// Gets the order of this bezier curve. If the curve has less than two points,
    /// this will always return None.
    pub fn order(&self) -> (r: Option<usize>)
        ensures
            r == order_of(self@),
    {
        self.curve.order()
    }

    /// Gets a single point on this bezier curve, by De Casteljau's
    /// reduction. A curve with fewer than two control points has no points
    /// to give.
    pub fn get_point(&self, t: Scalar) -> (r: Result<P, CurveError>)
        ensures
            r == evaluation(self@, t),
    {
        self.curve.get_point(t)
    }
}

} // verus!
