//! Bézier curves of any order over exact fixed-point arithmetic.
//!
//! A [`Curve`] owns an ordered list of control points of one [`Point`] type,
//! evaluates single curve points by De Casteljau's repeated linear
//! interpolation, and hands out a sampling cursor ([`Iter`]) that walks the
//! parameter domain `[0, 1]` at a fixed step.
//!
//! Parameters and the coordinates of the built-in point types are
//! [`Scalar`]s: whole numbers of billionths, so every result is exact and
//! every contract is stated over mathematical integers.
//!
//! - [`scalar`]: fixed-point numbers and their interpolation.
//! - [`point`]: the interpolation capability and points of the plane and of
//!   space.
//! - [`casteljau`]: what a curve evaluates to, as a function of its control
//!   points.
//! - [`sampling`]: the parameters at which a cursor evaluates its curve.
//! - [`curve`]: curves, their cursors, and curves of four points.
//! - [`bezier`]: append-only curves.
//! - [`error`]: the failures that these operations report.

pub mod bezier;
pub mod casteljau;
pub mod curve;
pub mod error;
pub mod point;
pub mod sampling;
pub mod scalar;

pub use bezier::Bezier;
pub use curve::{Curve, Iter, Line, QuadraticCurve};
pub use error::CurveError;
pub use point::{Point, ThreeDimensionalPoint, TwoDimensionalPoint};
pub use scalar::{Scalar, UNITS_PER_ONE};
