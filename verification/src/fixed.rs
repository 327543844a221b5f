//! Decimal fixed-point numbers for motion deltas and tuning factors.
//!
//! Pointer deltas, the acceleration factor and the jitter threshold are
//! fractional quantities. They are held here as whole counts of millionths,
//! so that every operation on them is exact integer arithmetic.

use vstd::prelude::*;

verus! {

/// How many millionths make one whole unit.
pub const MICROS_PER_UNIT: i64 = 1_000_000;

/// A signed number with six decimal places, held as a count of millionths.
///
/// `Fixed { micros: 1_500_000 }` stands for 1.5 and `Fixed { micros: -200_000 }`
/// for -0.2.
#[derive(Clone, Copy, Debug, PartialEq, Eq, Structural)]
pub struct Fixed {
    pub micros: i64,
}

/// The quotient of `n` by a positive `d`, rounded toward zero.
pub open spec fn div_toward_zero(n: int, d: int) -> int {
    if n >= 0 {
        n / d
    } else {
        -((-n) / d)
    }
}

/// `x` if it lies between `lo` and `hi`, else the nearer of the two bounds.
pub open spec fn clamp(x: int, lo: int, hi: int) -> int {
    if x < lo {
        lo
    } else if x > hi {
        hi
    } else {
        x
    }
}

impl Fixed {
    /// The absolute value, in millionths.
    pub open spec fn magnitude(self) -> int {
        if self.micros >= 0 {
            self.micros as int
        } else {
            -(self.micros as int)
        }
    }

    /// The exact product with `factor`, rounded toward zero to six places
    /// and held to the range of `i64`.
    pub open spec fn times(self, factor: Fixed) -> Fixed {
        Fixed {
            micros: clamp(
                div_toward_zero(self.micros * factor.micros, MICROS_PER_UNIT as int),
                i64::MIN as int,
                i64::MAX as int,
            ) as i64,
        }
    }

    /// The whole number of units, rounded toward zero and held to the range
    /// of `i32`.
    pub open spec fn whole_units(self) -> int {
        clamp(
            div_toward_zero(self.micros as int, MICROS_PER_UNIT as int),
            i32::MIN as int,
            i32::MAX as int,
        )
    }

    /// The number `units`, with nothing after the decimal point.
    pub fn from_units(units: i32) -> (r: Fixed)
        ensures
            r.micros == units * MICROS_PER_UNIT,
    {
        Fixed { micros: (units as i64) * MICROS_PER_UNIT }
    }

    /// Whether the absolute value is strictly less than `bound`.
    ///
    /// A bound of zero or less is never undercut.
    pub fn magnitude_below(&self, bound: &Fixed) -> (below: bool)
        ensures
            below == (self.magnitude() < bound.micros),
    {
        if bound.micros <= 0 {
            false
        } else {
            -bound.micros < self.micros && self.micros < bound.micros
        }
    }

    /// Multiplies by `factor`.
    ///
    /// The product is rounded toward zero to six decimal places; one that
    /// does not fit is replaced by the nearest number that does.
    pub fn scaled_by(&self, factor: &Fixed) -> (r: Fixed)
        ensures
            r == self.times(*factor),
    {
        let a: i64 = self.micros;
        let b: i64 = factor.micros;
        assert(-0x4000_0000_0000_0000_0000_0000_0000_0000 <= a * b
            <= 0x4000_0000_0000_0000_0000_0000_0000_0000) by (nonlinear_arith)
            requires
                -0x8000_0000_0000_0000 <= a <= 0x7fff_ffff_ffff_ffff,
                -0x8000_0000_0000_0000 <= b <= 0x7fff_ffff_ffff_ffff,
        ;
        let product: i128 = (a as i128) * (b as i128);
        let quotient: i128 = product / (MICROS_PER_UNIT as i128);
        if quotient < i64::MIN as i128 {
            Fixed { micros: i64::MIN }
        } else if quotient > i64::MAX as i128 {
            Fixed { micros: i64::MAX }
        } else {
            Fixed { micros: quotient as i64 }
        }
    }

    /// Drops the fractional part, rounding toward zero.
    ///
    /// Rounding toward zero treats motion in both directions alike, so a
    /// pointer moved back and forth does not drift. A value beyond the range
    /// of `i32` gives the nearest bound of that range.
    pub fn truncate(&self) -> (units: i32)
        ensures
            units == self.whole_units(),
    {
        let quotient: i64 = self.micros / MICROS_PER_UNIT;
        if quotient < i32::MIN as i64 {
            i32::MIN
        } else if quotient > i32::MAX as i64 {
            i32::MAX
        } else {
            quotient as i32
        }
    }
}

/// Rounding toward zero never moves a number away from zero, and moves it
/// by less than one unit of the divisor.
pub proof fn div_toward_zero_bounds(n: int, d: int)
    requires
        d > 0,
    ensures
        n >= 0 ==> div_toward_zero(n, d) * d <= n < div_toward_zero(n, d) * d + d,
        n <= 0 ==> div_toward_zero(n, d) * d - d < n <= div_toward_zero(n, d) * d,
{
    if n >= 0 {
        let q = n / d;
        assert(q * d <= n < q * d + d) by (nonlinear_arith)
            requires
                q == n / d,
                d > 0,
                n >= 0,
        ;
    } else {
        let q = (-n) / d;
        assert(q * d <= -n < q * d + d) by (nonlinear_arith)
            requires
                q == (-n) / d,
                d > 0,
                -n >= 0,
        ;
        assert((-q) * d == -(q * d)) by (nonlinear_arith);
    }
}

/// Rounding toward zero treats both directions alike: a number and its
/// negative lose the same fraction. So a pointer that is moved out and
/// back by the same distance ends where it began.
pub proof fn truncation_is_symmetric(x: Fixed)
    requires
        -(i32::MAX as int) * MICROS_PER_UNIT <= x.micros <= (i32::MAX as int) * MICROS_PER_UNIT,
    ensures
        (Fixed { micros: (-x.micros) as i64 }).whole_units() == -x.whole_units(),
{
    let d = MICROS_PER_UNIT as int;
    let n = x.micros as int;
    div_toward_zero_bounds(n, d);
    div_toward_zero_bounds(-n, d);
    let q = div_toward_zero(n, d);
    assert(-(i32::MAX as int) <= q <= i32::MAX as int) by (nonlinear_arith)
        requires
            d == 1_000_000,
            -(i32::MAX as int) * d <= n <= (i32::MAX as int) * d,
            n >= 0 ==> q * d <= n < q * d + d,
            n <= 0 ==> q * d - d < n <= q * d,
    ;
}

/// Whole numbers multiply exactly: the product of `m` and `n`, both without
/// a fraction, is `m * n` without a fraction, as long as it fits.
pub proof fn whole_factors_multiply_exactly(m: i32, n: i32)
    requires
        i32::MIN <= m * n <= i32::MAX,
    ensures
        (Fixed { micros: (m * MICROS_PER_UNIT) as i64 }).times(
            Fixed { micros: (n * MICROS_PER_UNIT) as i64 },
        ) == (Fixed { micros: (m * n * MICROS_PER_UNIT) as i64 }),
        (Fixed { micros: (m * n * MICROS_PER_UNIT) as i64 }).whole_units() == m * n,
{
    let d = MICROS_PER_UNIT as int;
    let k = m * n;
    assert((m * d) * (n * d) == (k * d) * d) by (nonlinear_arith)
        requires
            k == m * n,
    ;
    div_toward_zero_exact(k * d, d);
    div_toward_zero_exact(k, d);
}

/// A multiple of the divisor is divided without remainder.
pub proof fn div_toward_zero_exact(k: int, d: int)
    requires
        d > 0,
    ensures
        div_toward_zero(k * d, d) == k,
{
    if k * d >= 0 {
        assert((k * d) / d == k) by (nonlinear_arith)
            requires
                d > 0,
        ;
    } else {
        assert(-(k * d) == (-k) * d) by (nonlinear_arith);
        assert(((-k) * d) / d == -k) by (nonlinear_arith)
            requires
                d > 0,
        ;
    }
}

} // verus!
