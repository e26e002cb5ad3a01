//! Curves of any order, their evaluation and their sampling.

use vstd::prelude::*;
use crate::casteljau::{evaluate, reduce};
use crate::error::CurveError;
use crate::point::{Point, TwoDimensionalPoint};
use crate::sampling::{
    lemma_pending_exhausted, lemma_pending_step, pending_parameters, sample_parameters,
};
use crate::scalar::{Scalar, UNITS_PER_ONE};

verus! {

/// The straight segment between two points.
pub struct Line<P: Point + Copy>(P, P);

impl<P: Point + Copy> Line<P> {
    /// The point at parameter `t` on the segment.
    fn get_point(&self, t: Scalar) -> (r: P)
        ensures
            r == self.0.lerp_spec(self.1, t),
    {
        self.0.lerp(self.1, t)
    }
}

/// The control point at an index, if there is one.
pub open spec fn point_at<P>(points: Seq<P>, index: usize) -> Option<P> {
    if index < points.len() {
        Some(points[index as int])
    } else {
        None
    }
}

/// The order of the curve with these control points: one less than their
/// number, where there are at least two, and undefined otherwise.
pub open spec fn order_of<P>(points: Seq<P>) -> Option<usize> {
    if points.len() < 2 {
        None
    } else {
        Some((points.len() - 1) as usize)
    }
}

/// What evaluating the curve with these control points gives at `t`: the
/// curve's point there, or the reason why the curve has none.
pub open spec fn evaluation<P: Point>(points: Seq<P>, t: Scalar) -> Result<P, CurveError> {
    if points.len() < 2 {
        Err(CurveError::UndefinedOrder)
    } else {
        Ok(evaluate(points, t))
    }
}

/// Whether `lines` are the segments between the neighbours of `points`.
spec fn joins<P: Point + Copy>(lines: Seq<Line<P>>, points: Seq<P>) -> bool {
    &&& lines.len() + 1 == points.len()
    &&& forall|j: int| 0 <= j < lines.len() ==> #[trigger] lines[j] == Line(points[j], points[j + 1])
}

/// Represents an nth-order bezier curve.
#[derive(Debug)]
pub struct Curve<P: Point + Copy> {
    points: Vec<P>,
}

impl<P: Point + Copy> View for Curve<P> {
    type V = Seq<P>;

    /// The control points, in the order in which they were added.
    closed spec fn view(&self) -> Seq<P> {
        self.points@
    }
}

impl<P: Point + Copy> Clone for Curve<P> {
    /// A curve with the same control points in the same order.
    fn clone(&self) -> (copy: Self)
        ensures
            copy@ == self@,
    {
        let count = self.points.len();
        let mut points: Vec<P> = Vec::with_capacity(count);
        for i in 0..count
            invariant
                count == self.points.len(),
                points@ == self.points@.take(i as int),
        {
            points.push(self.points[i]);
        }
        Curve { points }
    }
}

impl<P: Point + Copy> Curve<P> {
    /// A curve without control points.
    pub fn new() -> (curve: Self)
        ensures
            curve@ == Seq::<P>::empty(),
    {
        Curve { points: Vec::new() }
    }

    /// Returns a point in this curve.
    pub fn point(&self, point: usize) -> (r: Option<P>)
        ensures
            r == point_at(self@, point),
    {
        if point < self.points.len() {
            Some(self.points[point])
        } else {
            None
        }
    }

    /// Adds a point to the bezier curve.
    pub fn add_point(&mut self, point: P)
        ensures
            final(self)@ == old(self)@.push(point),
    {
        self.points.push(point)
    }

    /// Replaces the control point at index `i`, if there is one, and says
    /// whether there was.
    pub fn set_point(&mut self, i: usize, point: P) -> (replaced: bool)
        ensures
            replaced == (i < old(self)@.len()),
            replaced ==> final(self)@ == old(self)@.update(i as int, point),
            !replaced ==> final(self)@ == old(self)@,
        no_unwind
    {
        if i < self.points.len() {
            self.points[i] = point;
            return true;
        }
        false
    }

    /// Returns a cursor that steps through the curve in `step`-sized
    /// segments. A step that is not positive is refused, and so is a curve
    /// that cannot be evaluated.
    pub fn iter(&self, step: Scalar) -> (r: Result<Iter<'_, P>, CurveError>)
        ensures
            (match r {
                Ok(cursor) => {
                    &&& step@ > 0
                    &&& self@.len() >= 2
                    &&& cursor.points() == self@
                    &&& cursor.pending() == sample_parameters(step@)
                },
                Err(CurveError::InvalidStep) => step@ <= 0,
                Err(CurveError::UndefinedOrder) => step@ > 0 && self@.len() < 2,
                Err(_) => false,
            }),
    {
        if step.units <= 0 {
            Err(CurveError::InvalidStep)
        } else if self.points.len() < 2 {
            Err(CurveError::UndefinedOrder)
        } else {
            Ok(Iter::new(self, step))
        }
    }

    /// Gets the order of this bezier curve. If the curve has less than two points,
    /// this will always return None.
    pub fn order(&self) -> (r: Option<usize>)
        ensures
            r == order_of(self@),
    {
        if self.points.len() < 2 {
            None
        } else {
            Some(self.points.len() - 1)
        }
    }

    /// Gets a single point on this bezier curve, by De Casteljau's
    /// reduction. A curve with fewer than two control points has no points
    /// to give.
    pub fn get_point(&self, t: Scalar) -> (r: Result<P, CurveError>)
        ensures
            r == evaluation(self@, t),
    {
        let count = self.points.len();
        if count < 2 {
            return Err(CurveError::UndefinedOrder);
        }
        let last = count - 1;
        let mut lines: Vec<Line<P>> = Vec::with_capacity(last);

        for i in 0..last
            invariant
                last + 1 == self.points.len(),
                lines.len() == i,
                forall|j: int|
                    0 <= j < i ==> #[trigger] lines[j] == Line(self.points[j], self.points[j + 1]),
        {
            lines.push(Line(self.points[i], self.points[i + 1]));
        }

        // Interpolate between the ith line and the i + 1th line.
        // Replace the line at i with a new line based on these points.
        // Repeat until the amount of lines is equal to 1.
        let ghost mut generation: Seq<P> = self@;
        while lines.len() > 1
            invariant
                lines.len() >= 1,
                joins(lines@, generation),
                evaluate(generation, t) == evaluate(self@, t),
            decreases lines.len(),
        {
            let ghost next = reduce(generation, t);
            let last = lines.len() - 1;
            for i in 0..last
                invariant
                    last + 1 == lines.len(),
                    last + 2 == generation.len(),
                    next == reduce(generation, t),
                    forall|j: int| 0 <= j < i ==> #[trigger] lines[j] == Line(next[j], next[j + 1]),
                    forall|j: int|
                        i <= j <= last ==> #[trigger] lines[j] == Line(
                            generation[j],
                            generation[j + 1],
                        ),
            {
                let a = lines[i].get_point(t);
                let b = lines[i + 1].get_point(t);

                lines[i] = Line(a, b);
            }

            lines.pop();
            proof {
                generation = next;
            }
        }

        proof {
            reveal_with_fuel(evaluate, 2);
        }
        Ok(lines[0].get_point(t))
    }
}

/// Replacing the control point at a valid index changes neither the count
/// nor the order, is read back at that index, and leaves every other
/// control point where it was.
pub proof fn lemma_replaced_point_is_read_back<P: Point + Copy>(
    before: Curve<P>,
    after: Curve<P>,
    i: usize,
    point: P,
)
    requires
        i < before@.len(),
        after@ == before@.update(i as int, point),
    ensures
        point_at(after@, i) == Some(point),
        after@.len() == before@.len(),
        order_of(after@) == order_of(before@),
        forall|j: usize| j != i ==> point_at(after@, j) == point_at(before@, j),
{
}

/// Adding a control point raises a defined order by one; the second point
/// is the one that defines it.
pub proof fn lemma_added_point_raises_order<P: Point + Copy>(
    before: Curve<P>,
    after: Curve<P>,
    point: P,
)
    requires
        after@ == before@.push(point),
        after@.len() <= usize::MAX,
    ensures
        before@.len() == 0 ==> order_of(after@).is_none(),
        before@.len() >= 1 ==> order_of(after@) == Some(before@.len() as usize),
        order_of(before@) matches Some(order) ==> order_of(after@) == Some((order + 1) as usize),
{
}

/// Evaluation keeps no state: what a curve gives at a parameter depends on
/// its control points and on the parameter, and on nothing else. So asking
/// twice gives the same answer twice.
pub proof fn lemma_evaluation_is_repeatable<P: Point + Copy>(
    first: Curve<P>,
    second: Curve<P>,
    t: Scalar,
)
    requires
        first@ == second@,
    ensures
        evaluation(first@, t) == evaluation(second@, t),
{
}

/// A cursor over a curve: it gives the curve's points at the parameters of
/// one walk over `[0, 1]`, and then nothing more. A cursor that has run out
/// stays so; to walk again, ask the curve for a new one.
pub struct Iter<'a, P: Point + Copy> {
    curve: &'a Curve<P>,
    cur: Scalar,
    step: Scalar,
}

impl<'a, P: Point + Copy> Iter<'a, P> {
    #[verifier::type_invariant]
    spec fn well_formed(&self) -> bool {
        &&& self.curve@.len() >= 2
        &&& self.step@ > 0
    }

    /// The control points of the curve that the cursor walks.
    pub closed spec fn points(&self) -> Seq<P> {
        self.curve@
    }

    /// The parameters of the points that the cursor will still give.
    pub closed spec fn pending(&self) -> Seq<Scalar> {
        pending_parameters(self.cur@, self.step@)
    }

    fn new(curve: &'a Curve<P>, step: Scalar) -> (cursor: Self)
        requires
            curve@.len() >= 2,
            step@ > 0,
        ensures
            cursor.points() == curve@,
            cursor.pending() == sample_parameters(step@),
    {
        Iter { curve, cur: Scalar::zero(), step }
    }

    /// Gives the point at the first pending parameter and moves on by one
    /// step, or gives nothing when no parameter is pending.
    pub fn next(&mut self) -> (r: Option<P>)
        ensures
            final(self).points() == old(self).points(),
            old(self).pending().len() == 0 ==> r.is_none() && final(self).pending() == old(
                self,
            ).pending(),
            old(self).pending().len() > 0 ==> r == Some(
                evaluate(old(self).points(), old(self).pending()[0]),
            ) && final(self).pending() == old(self).pending().drop_first(),
    {
        proof {
            use_type_invariant(&*self);
        }
        if self.cur.units > UNITS_PER_ONE {
            proof {
                lemma_pending_exhausted(self.cur@, self.step@);
            }
            return None;
        }
        proof {
            lemma_pending_step(self.cur@, self.step@);
        }
        let ahead: i128 = self.cur.units as i128 + self.step.units as i128;
        let t = if ahead < UNITS_PER_ONE as i128 {
            self.cur
        } else {
            Scalar::one()
        };
        let res = self.curve.get_point(t).unwrap();

        if ahead > i64::MAX as i128 {
            proof {
                lemma_pending_exhausted(ahead as int, self.step@);
                lemma_pending_exhausted(i64::MAX as int, self.step@);
            }
            self.cur = Scalar { units: i64::MAX };
        } else {
            self.cur = Scalar { units: ahead as i64 };
        }

        Some(res)
    }

    /// Walks to the end and gives every pending point, in order.
    pub fn collect(self) -> (points: Vec<P>)
        ensures
            points@.len() == self.pending().len(),
            forall|k: int|
                0 <= k < points@.len() ==> #[trigger] points@[k] == evaluate(
                    self.points(),
                    self.pending()[k],
                ),
    {
        let mut cursor = self;
        let mut points: Vec<P> = Vec::new();
        loop
            invariant
                cursor.points() == self.points(),
                points@.len() + cursor.pending().len() == self.pending().len(),
                cursor.pending() == self.pending().skip(points@.len() as int),
                forall|k: int|
                    0 <= k < points@.len() ==> #[trigger] points@[k] == evaluate(
                        self.points(),
                        self.pending()[k],
                    ),
            ensures
                cursor.pending().len() == 0,
            decreases cursor.pending().len(),
        {
            match cursor.next() {
                Some(p) => points.push(p),
                None => break ,
            }
        }
        points
    }
}

/// A curve of exactly four control points in the plane.
pub struct QuadraticCurve {
    curve: Curve<TwoDimensionalPoint>,
}

impl View for QuadraticCurve {
    type V = Seq<TwoDimensionalPoint>;

    /// The four control points, in order.
    closed spec fn view(&self) -> Seq<TwoDimensionalPoint> {
        self.curve@
    }
}

impl QuadraticCurve {
    #[verifier::type_invariant]
    spec fn well_formed(&self) -> bool {
        self.curve@.len() == 4
    }

    /// The curve with these four control points, in this order.
    pub fn new(
        p0: TwoDimensionalPoint,
        p1: TwoDimensionalPoint,
        p2: TwoDimensionalPoint,
        p3: TwoDimensionalPoint,
    ) -> (r: Self)
        ensures
            r@ == seq![p0, p1, p2, p3],
    {
        let mut curve = Curve::<TwoDimensionalPoint>::new();

        curve.add_point(p0);
        curve.add_point(p1);
        curve.add_point(p2);
        curve.add_point(p3);

        Self { curve }
    }

    /// Returns a cursor that steps through the curve in `step`-sized
    /// segments, unless the step is zero or negative.
    pub fn iter(&self, step: Scalar) -> (r: Result<Iter<'_, TwoDimensionalPoint>, CurveError>)
        ensures
            self@.len() == 4,
            (match r {
                Ok(cursor) => {
                    &&& step@ > 0
                    &&& cursor.points() == self@
                    &&& cursor.pending() == sample_parameters(step@)
                },
                Err(e) => e == CurveError::InvalidStep && step@ <= 0,
            }),
    {
        proof {
            use_type_invariant(self);
        }
        self.curve.iter(step)
    }

    /// Replaces one of the four control points.
    pub fn set_point(&mut self, i: usize, point: TwoDimensionalPoint) -> (r: Result<
        (),
        CurveError,
    >)
        ensures
            old(self)@.len() == 4,
            (match r {
                Ok(_) => i < 4 && final(self)@ == old(self)@.update(i as int, point),
                Err(e) => i >= 4 && final(self)@ == old(self)@ && e == (
                CurveError::IndexOutOfRange { index: i, count: 4 }),
            }),
    {
        proof {
            use_type_invariant(&*self);
        }
        if !self.curve.set_point(i, point) {
            return Err(CurveError::IndexOutOfRange { index: i, count: 4 });
        }
        Ok(())
    }

    /// Returns one of the four control points.
    pub fn point(&self, point: usize) -> (r: Result<TwoDimensionalPoint, CurveError>)
        ensures
            self@.len() == 4,
            (match r {
                Ok(p) => point < 4 && p == self@[point as int],
                Err(e) => point >= 4 && e == (
                CurveError::IndexOutOfRange { index: point, count: 4 }),
            }),
    {
        proof {
            use_type_invariant(self);
        }
        match self.curve.point(point) {
            Some(p) => Ok(p),
            None => Err(CurveError::IndexOutOfRange { index: point, count: 4 }),
        }
    }

    /// Gets a single point on this curve. Four control points always have
    /// one.
    pub fn get_point(&self, t: Scalar) -> (r: TwoDimensionalPoint)
        ensures
            self@.len() == 4,
            r == evaluate(self@, t),
    {
        proof {
            use_type_invariant(self);
        }
        self.curve.get_point(t).unwrap()
    }
}

} // verus!
