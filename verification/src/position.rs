//! The fixed-point position/offset value type and its arithmetic.

use vstd::arithmetic::div_mod::lemma_fundamental_div_mod;
use vstd::arithmetic::mul::lemma_mul_upper_bound;
use vstd::math::abs;
use vstd::prelude::*;

use crate::GCodeError;

verus! {

/// Division truncating toward zero (rather than the flooring division of the
/// mathematical `/`): the quotient of the magnitudes, with the sign of the
/// exact quotient.
pub open spec fn tdiv(a: int, b: int) -> int
    recommends
        b != 0,
{
    if (a < 0) == (b < 0) {
        abs(a) as int / abs(b) as int
    } else {
        -(abs(a) as int / abs(b) as int)
    }
}

/// How the sign and the magnitude of an exact product relate to those of its
/// factors.
proof fn lemma_abs_mul(a: int, b: int)
    ensures
        abs(a * b) == abs(a) * abs(b),
        (a * b > 0) <==> (a != 0 && b != 0 && ((a < 0) == (b < 0))),
        (a * b < 0) <==> (a != 0 && b != 0 && ((a < 0) != (b < 0))),
{
    if a == 0 || b == 0 {
        assert(a * b == 0) by (nonlinear_arith)
            requires
                a == 0 || b == 0,
        ;
        assert(abs(a) * abs(b) == 0) by (nonlinear_arith)
            requires
                abs(a) == 0 || abs(b) == 0,
        ;
    } else if a > 0 && b > 0 {
        assert(a * b > 0) by (nonlinear_arith)
            requires
                a > 0 && b > 0,
        ;
    } else if a > 0 && b < 0 {
        assert(a * b < 0 && a * (-b) == -(a * b)) by (nonlinear_arith)
            requires
                a > 0 && b < 0,
        ;
    } else if a < 0 && b > 0 {
        assert(a * b < 0 && (-a) * b == -(a * b)) by (nonlinear_arith)
            requires
                a < 0 && b > 0,
        ;
    } else {
        assert(a * b > 0 && (-a) * (-b) == a * b) by (nonlinear_arith)
            requires
                a < 0 && b < 0,
        ;
    }
}

/// Coordinate values are multiplied by this scale factor prior to being
/// stored, giving 16 bits of fractional precision. The same constant is used
/// in every conversion direction.
pub const FIXED_SCALE: i64 = 65536;

/// A position (or offset): three independently optional coordinate values,
/// each stored as the true coordinate multiplied by [`FIXED_SCALE`]. Absence
/// of an axis is a first-class state meaning "this axis is not part of this
/// position", distinct from zero.
#[derive(Clone, Copy, Debug, PartialEq, Eq)]
pub struct GCodePosition {
    pub x: Option<i64>,
    pub y: Option<i64>,
    pub z: Option<i64>,
}

/// An offset has the same representation and the same arithmetic as a
/// position.
pub type GCodeOffset = GCodePosition;

/// Whether the componentwise sum of one axis fits the stored width. Holds
/// vacuously when either side is absent, since no sum is formed then.
pub open spec fn axis_sum_fits(l: Option<i64>, r: Option<i64>) -> bool {
    (l is Some && r is Some) ==> i64::MIN <= l->0 + r->0 <= i64::MAX
}

/// Whether the componentwise difference of one axis fits the stored width.
pub open spec fn axis_diff_fits(l: Option<i64>, r: Option<i64>) -> bool {
    (l is Some && r is Some) ==> i64::MIN <= l->0 - r->0 <= i64::MAX
}

/// One axis of a position addition: the sum when BOTH operands define a
/// value; otherwise the LEFT operand's value for that axis, unchanged (which
/// may itself be absent).
pub open spec fn axis_add(l: Option<i64>, r: Option<i64>) -> Option<i64>
    recommends
        axis_sum_fits(l, r),
{
    if l is Some && r is Some {
        Some((l->0 + r->0) as i64)
    } else {
        l
    }
}

/// One axis of a position subtraction; mirrors [`axis_add`] with subtraction
/// in place of summation.
pub open spec fn axis_sub(l: Option<i64>, r: Option<i64>) -> Option<i64>
    recommends
        axis_diff_fits(l, r),
{
    if l is Some && r is Some {
        Some((l->0 - r->0) as i64)
    } else {
        l
    }
}

/// Whether every axis of `a + b` fits the stored width.
pub open spec fn add_fits(a: GCodePosition, b: GCodePosition) -> bool {
    axis_sum_fits(a.x, b.x) && axis_sum_fits(a.y, b.y) && axis_sum_fits(a.z, b.z)
}

/// Whether every axis of `a - b` fits the stored width.
pub open spec fn sub_fits(a: GCodePosition, b: GCodePosition) -> bool {
    axis_diff_fits(a.x, b.x) && axis_diff_fits(a.y, b.y) && axis_diff_fits(a.z, b.z)
}

/// The product of a stored value and a fixed-point scalar: the widened exact
/// product, rescaled back down, truncating toward zero.
pub open spec fn scale_mul(v: int, s: int) -> int {
    tdiv(v * s, FIXED_SCALE as int)
}

/// The quotient of a stored value and a non-zero fixed-point scalar: the
/// stored value widened by the scale factor, then divided, truncating toward
/// zero.
pub open spec fn scale_div(v: int, s: int) -> int
    recommends
        s != 0,
{
    tdiv(v * FIXED_SCALE, s)
}

/// Whether the rescaled product on one axis fits the stored width. Holds
/// vacuously for an absent axis.
pub open spec fn axis_mul_fits(a: Option<i64>, s: i64) -> bool {
    a is Some ==> i64::MIN <= scale_mul(a->0 as int, s as int) <= i64::MAX
}

/// Whether the rescaled quotient on one axis fits the stored width.
pub open spec fn axis_div_fits(a: Option<i64>, s: i64) -> bool {
    a is Some ==> i64::MIN <= scale_div(a->0 as int, s as int) <= i64::MAX
}

/// One axis of a scalar multiplication: an absent axis remains absent.
pub open spec fn axis_mul(a: Option<i64>, s: i64) -> Option<i64>
    recommends
        axis_mul_fits(a, s),
{
    if a is Some {
        Some(scale_mul(a->0 as int, s as int) as i64)
    } else {
        None
    }
}

/// One axis of a scalar division: an absent axis remains absent.
pub open spec fn axis_div(a: Option<i64>, s: i64) -> Option<i64>
    recommends
        s != 0 && axis_div_fits(a, s),
{
    if a is Some {
        Some(scale_div(a->0 as int, s as int) as i64)
    } else {
        None
    }
}

/// Whether every axis of `p` times the scalar `s` fits the stored width.
pub open spec fn mul_fits(p: GCodePosition, s: i64) -> bool {
    axis_mul_fits(p.x, s) && axis_mul_fits(p.y, s) && axis_mul_fits(p.z, s)
}

/// Whether every axis of `p` divided by the scalar `s` fits the stored width.
pub open spec fn div_fits(p: GCodePosition, s: i64) -> bool {
    axis_div_fits(p.x, s) && axis_div_fits(p.y, s) && axis_div_fits(p.z, s)
}

/// The magnitude of `v`, widened so that `i64::MIN` is representable.
fn magnitude(v: i64) -> (m: u128)
    ensures
        m == abs(v as int),
{
    if v < 0 {
        (-(v as i128)) as u128
    } else {
        v as u128
    }
}

/// Rescales the widened product of `v` and the scalar `s` back to the stored
/// width, truncating toward zero; `None` exactly when the result would not
/// fit.
fn scale_mul_exec(v: i64, s: i64) -> (r: Option<i64>)
    ensures
        r is Some <==> i64::MIN <= scale_mul(v as int, s as int) <= i64::MAX,
        r matches Some(w) ==> w as int == scale_mul(v as int, s as int),
{
    let mv: u128 = magnitude(v);
    let ms: u128 = magnitude(s);
    proof {
        lemma_mul_upper_bound(mv as int, 0x8000000000000000, ms as int, 0x8000000000000000);
    }
    let num: u128 = mv * ms;
    let q: u128 = num / (FIXED_SCALE as u128);
    proof {
        lemma_abs_mul(v as int, s as int);
        lemma_fundamental_div_mod(num as int, FIXED_SCALE as int);
    }
    let neg: bool = (v < 0) != (s < 0);
    if neg {
        if q > 0x8000000000000000u128 {
            None
        } else if q == 0x8000000000000000u128 {
            Some(i64::MIN)
        } else {
            Some(-(q as i64))
        }
    } else {
        if q > i64::MAX as u128 {
            None
        } else {
            Some(q as i64)
        }
    }
}

/// Divides the widened, rescaled `v` by the scalar `s`, truncating toward
/// zero; `None` exactly when the result would not fit.
fn scale_div_exec(v: i64, s: i64) -> (r: Option<i64>)
    requires
        s != 0,
    ensures
        r is Some <==> i64::MIN <= scale_div(v as int, s as int) <= i64::MAX,
        r matches Some(w) ==> w as int == scale_div(v as int, s as int),
{
    let mv: u128 = magnitude(v);
    let ms: u128 = magnitude(s);
    proof {
        lemma_mul_upper_bound(mv as int, 0x8000000000000000, FIXED_SCALE as int, 0x10000);
    }
    let num: u128 = mv * (FIXED_SCALE as u128);
    let q: u128 = num / ms;
    proof {
        lemma_abs_mul(v as int, FIXED_SCALE as int);
        lemma_fundamental_div_mod(num as int, ms as int);
    }
    let neg: bool = (v < 0) != (s < 0);
    if neg {
        if q > 0x8000000000000000u128 {
            None
        } else if q == 0x8000000000000000u128 {
            Some(i64::MIN)
        } else {
            Some(-(q as i64))
        }
    } else {
        if q > i64::MAX as u128 {
            None
        } else {
            Some(q as i64)
        }
    }
}

impl GCodePosition {
    /// Creates a new position from raw, already-scaled values; no conversion
    /// and no validation is applied.
    pub fn from_raw(x: Option<i64>, y: Option<i64>, z: Option<i64>) -> (r: Self)
        ensures
            r.x == x,
            r.y == y,
            r.z == z,
    {
        Self { x, y, z }
    }

    /// Same as [`Self::from_raw`], but all three axes are present.
    pub fn from_raw_full(x: i64, y: i64, z: i64) -> (r: Self)
        ensures
            r.x == Some(x),
            r.y == Some(y),
            r.z == Some(z),
    {
        Self::from_raw(Some(x), Some(y), Some(z))
    }

    /// Per-axis addition. An axis of the result is the sum only when both
    /// operands define that axis; otherwise it is the left operand's value
    /// for that axis, passed through verbatim.
    pub fn add(self, rhs: Self) -> (r: Self)
        requires
            add_fits(self, rhs),
        ensures
            r.x == axis_add(self.x, rhs.x),
            r.y == axis_add(self.y, rhs.y),
            r.z == axis_add(self.z, rhs.z),
    {
        Self {
            x: match (self.x, rhs.x) {
                (Some(l), Some(r)) => Some(l + r),
                _ => self.x,
            },
            y: match (self.y, rhs.y) {
                (Some(l), Some(r)) => Some(l + r),
                _ => self.y,
            },
            z: match (self.z, rhs.z) {
                (Some(l), Some(r)) => Some(l + r),
                _ => self.z,
            },
        }
    }

    /// In-place form of [`Self::add`].
    pub fn add_assign(&mut self, rhs: Self)
        requires
            add_fits(*old(self), rhs),
        ensures
            final(self).x == axis_add(old(self).x, rhs.x),
            final(self).y == axis_add(old(self).y, rhs.y),
            final(self).z == axis_add(old(self).z, rhs.z),
    {
        *self = (*self).add(rhs);
    }

    /// Per-axis subtraction, with the same combination rule as [`Self::add`]:
    /// subtract only when both operands define the axis, else pass the left
    /// operand's value through verbatim.
    pub fn sub(self, rhs: Self) -> (r: Self)
        requires
            sub_fits(self, rhs),
        ensures
            r.x == axis_sub(self.x, rhs.x),
            r.y == axis_sub(self.y, rhs.y),
            r.z == axis_sub(self.z, rhs.z),
    {
        Self {
            x: match (self.x, rhs.x) {
                (Some(l), Some(r)) => Some(l - r),
                _ => self.x,
            },
            y: match (self.y, rhs.y) {
                (Some(l), Some(r)) => Some(l - r),
                _ => self.y,
            },
            z: match (self.z, rhs.z) {
                (Some(l), Some(r)) => Some(l - r),
                _ => self.z,
            },
        }
    }

    /// In-place form of [`Self::sub`].
    pub fn sub_assign(&mut self, rhs: Self)
        requires
            sub_fits(*old(self), rhs),
        ensures
            final(self).x == axis_sub(old(self).x, rhs.x),
            final(self).y == axis_sub(old(self).y, rhs.y),
            final(self).z == axis_sub(old(self).z, rhs.z),
    {
        *self = (*self).sub(rhs);
    }

    /// Scalar multiplication. `scalar` is a fixed-point value (the true
    /// factor multiplied by [`FIXED_SCALE`]). Each present axis is combined
    /// with the scalar through a widened intermediate product before being
    /// rescaled back down; absent axes remain absent. Fails with the
    /// out-of-range error exactly when some rescaled axis would not fit the
    /// stored width, in which case no axis is changed at all.
    pub fn mul(self, scalar: i64) -> (r: Result<Self, GCodeError>)
        ensures
            mul_fits(self, scalar) <==> r is Ok,
            r matches Ok(p) ==> p.x == axis_mul(self.x, scalar) && p.y == axis_mul(self.y, scalar)
                && p.z == axis_mul(self.z, scalar),
            r matches Err(e) ==> e == GCodeError::OutOfRangeError,
    {
        let x = match self.x {
            Some(v) => match scale_mul_exec(v, scalar) {
                Some(w) => Some(w),
                None => {
                    return Err(GCodeError::OutOfRangeError);
                },
            },
            None => None,
        };
        let y = match self.y {
            Some(v) => match scale_mul_exec(v, scalar) {
                Some(w) => Some(w),
                None => {
                    return Err(GCodeError::OutOfRangeError);
                },
            },
            None => None,
        };
        let z = match self.z {
            Some(v) => match scale_mul_exec(v, scalar) {
                Some(w) => Some(w),
                None => {
                    return Err(GCodeError::OutOfRangeError);
                },
            },
            None => None,
        };
        Ok(Self { x, y, z })
    }

    /// Scalar division, the counterpart of [`Self::mul`]: each present axis
    /// is widened by the scale factor and divided by the fixed-point scalar,
    /// truncating toward zero; absent axes remain absent. Fails with the
    /// out-of-range error when the scalar is zero, or exactly when some
    /// rescaled axis would not fit the stored width.
    pub fn div(self, scalar: i64) -> (r: Result<Self, GCodeError>)
        ensures
            (scalar != 0 && div_fits(self, scalar)) <==> r is Ok,
            r matches Ok(p) ==> p.x == axis_div(self.x, scalar) && p.y == axis_div(self.y, scalar)
                && p.z == axis_div(self.z, scalar),
            r matches Err(e) ==> e == GCodeError::OutOfRangeError,
    {
        if scalar == 0 {
            return Err(GCodeError::OutOfRangeError);
        }
        let x = match self.x {
            Some(v) => match scale_div_exec(v, scalar) {
                Some(w) => Some(w),
                None => {
                    return Err(GCodeError::OutOfRangeError);
                },
            },
            None => None,
        };
        let y = match self.y {
            Some(v) => match scale_div_exec(v, scalar) {
                Some(w) => Some(w),
                None => {
                    return Err(GCodeError::OutOfRangeError);
                },
            },
            None => None,
        };
        let z = match self.z {
            Some(v) => match scale_div_exec(v, scalar) {
                Some(w) => Some(w),
                None => {
                    return Err(GCodeError::OutOfRangeError);
                },
            },
            None => None,
        };
        Ok(Self { x, y, z })
    }
}

} // verus!
