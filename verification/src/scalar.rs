//! Fixed-point scalars and their linear interpolation.

use vstd::prelude::*;

verus! {

/// How many units make up the scalar `1`: a unit is one billionth.
pub const UNITS_PER_ONE: i64 = 1_000_000_000;

/// A fixed-point number: a whole number of billionths.
///
/// Every `i64` is a valid number of units; the type has no invariant.
#[derive(Clone, Copy, Debug, PartialEq, Eq, PartialOrd, Ord, Hash, Structural)]
pub struct Scalar {
    pub units: i64,
}

impl View for Scalar {
    type V = int;

    /// The scalar as a mathematical integer: its number of units.
    open spec fn view(&self) -> int {
        self.units as int
    }
}

/// The value nearest to `v` that an `i64` can hold.
pub open spec fn saturate(v: int) -> int {
    if v < i64::MIN {
        i64::MIN as int
    } else if v > i64::MAX {
        i64::MAX as int
    } else {
        v
    }
}

/// Linear interpolation on units: `a + t * (b - a)`, with the product
/// brought back to units by rounding towards negative infinity, and the sum
/// saturated to the range of an `i64`.
pub open spec fn interpolate_units(a: int, b: int, t: int) -> int {
    saturate(a + (t * (b - a)) / (UNITS_PER_ONE as int))
}

/// The product of a parameter and a coordinate difference fits in an
/// `i128`, with room to spare for rounding.
proof fn lemma_scaled_span_fits(t: int, span: int)
    requires
        i64::MIN <= t <= i64::MAX,
        i64::MIN - i64::MAX <= span <= i64::MAX - i64::MIN,
    ensures
        i128::MIN + 2 * UNITS_PER_ONE < t * span < i128::MAX - 2 * UNITS_PER_ONE,
{
    assert(-(0x8000_0000_0000_0000int * 0xFFFF_FFFF_FFFF_FFFFint) <= t * span
        <= 0x8000_0000_0000_0000int * 0xFFFF_FFFF_FFFF_FFFFint) by (nonlinear_arith)
        requires
            -0x8000_0000_0000_0000int <= t <= 0x8000_0000_0000_0000int,
            -0xFFFF_FFFF_FFFF_FFFFint <= span <= 0xFFFF_FFFF_FFFF_FFFFint,
    ;
}

/// `n` divided by [`UNITS_PER_ONE`], rounded towards negative infinity.
fn floor_to_units(n: i128) -> (q: i128)
    requires
        i128::MIN + UNITS_PER_ONE < n,
    ensures
        q == n as int / (UNITS_PER_ONE as int),
{
    let per_one: i128 = UNITS_PER_ONE as i128;
    if n >= 0 {
        n / per_one
    } else {
        -((-n + (per_one - 1)) / per_one)
    }
}

impl Scalar {
    /// The scalar that `self.lerp(other, t)` returns.
    pub open spec fn lerp_spec(self, other: Scalar, t: Scalar) -> Scalar {
        Scalar { units: interpolate_units(self@, other@, t@) as i64 }
    }

    /// The scalar of `units` billionths.
    pub fn from_units(units: i64) -> (r: Scalar)
        ensures
            r@ == units,
    {
        Scalar { units }
    }

    /// The number of billionths in this scalar.
    pub fn units(&self) -> (u: i64)
        ensures
            u == self@,
    {
        self.units
    }

    /// The scalar `0`.
    pub fn zero() -> (r: Scalar)
        ensures
            r@ == 0,
    {
        Scalar { units: 0 }
    }

    /// The scalar `1`.
    pub fn one() -> (r: Scalar)
        ensures
            r@ == UNITS_PER_ONE,
    {
        Scalar { units: UNITS_PER_ONE }
    }

    /// Interpolates linearly from `self` (at `t = 0`) to `other` (at
    /// `t = 1`). `t` may lie outside `[0, 1]`: the result then extrapolates,
    /// and saturates where it leaves the range of a scalar.
    pub fn lerp(self, other: Scalar, t: Scalar) -> (r: Scalar)
        ensures
            r == self.lerp_spec(other, t),
            r@ == interpolate_units(self@, other@, t@),
    {
        let span: i128 = other.units as i128 - self.units as i128;
        proof {
            lemma_scaled_span_fits(t.units as int, span as int);
        }
        let scaled: i128 = t.units as i128 * span;
        let sum: i128 = self.units as i128 + floor_to_units(scaled);
        if sum < i64::MIN as i128 {
            Scalar { units: i64::MIN }
        } else if sum > i64::MAX as i128 {
            Scalar { units: i64::MAX }
        } else {
            Scalar { units: sum as i64 }
        }
    }
}

/// Interpolation starts at the first scalar and arrives at the second:
/// at `t = 0` it gives `a`, at `t = 1` it gives `b`.
pub proof fn lemma_lerp_endpoints(a: Scalar, b: Scalar)
    ensures
        a.lerp_spec(b, Scalar { units: 0 }) == a,
        a.lerp_spec(b, Scalar { units: UNITS_PER_ONE }) == b,
{
    assert(0 * (b@ - a@) == 0);
}

/// Interpolating from a scalar to itself gives that scalar, at every
/// parameter: nothing is divided by the distance between the two.
pub proof fn lemma_lerp_coincident(a: Scalar, t: Scalar)
    ensures
        a.lerp_spec(a, t) == a,
{
    assert(t@ * (a@ - a@) == 0) by (nonlinear_arith);
}

/// Inside the domain `[0, 1]` interpolation stays between its two scalars,
/// so nothing saturates there.
pub proof fn lemma_lerp_between(a: Scalar, b: Scalar, t: Scalar)
    requires
        0 <= t@ <= UNITS_PER_ONE,
    ensures
        a@ <= b@ ==> a@ <= a.lerp_spec(b, t)@ <= b@,
        b@ <= a@ ==> b@ <= a.lerp_spec(b, t)@ <= a@,
        a.lerp_spec(b, t)@ == a@ + (t@ * (b@ - a@)) / (UNITS_PER_ONE as int),
{
    let span = b@ - a@;
    let one = UNITS_PER_ONE as int;
    if span >= 0 {
        assert(0 <= t@ * span <= one * span) by (nonlinear_arith)
            requires
                0 <= t@ <= one,
                span >= 0,
        ;
    } else {
        assert(one * span <= t@ * span <= 0) by (nonlinear_arith)
            requires
                0 <= t@ <= one,
                span < 0,
        ;
    }
}

} // verus!
