use vstd::prelude::*;

mod fixed;
mod matrix;
mod sums;
mod vector2;
mod vector3;
mod vector4;

pub use matrix::{
    col_m, dot_t, dot_t_prefix, ident_m, mm_t, rot_x_m, rot_y_m, rot_z_m, rotation_m, scale_m,
    translation_m, Matrix, Matrix4x4,
};
pub(crate) use matrix::{row4, stack4};
pub use sums::{
    dot_fits, dot_int, lemma_dot_t_exact, lemma_ident_wf, lemma_mm_int_assoc,
    lemma_mm_int_identity, lemma_mm_int_identity_right, lemma_mm_t_assoc, lemma_mm_t_exact,
    lemma_mm_t_identity, lemma_mm_t_identity_right, mat_wf, mm_fits, mm_int, products_of, sum_int,
};
pub use vector2::{dot2_m, Vector2};
pub use vector3::{dot3_m, Vector3};
pub use vector4::{dot4_m, Vector4};
pub use fixed::{
    cos_series_m, isqrt, lemma_isqrt_bounds, lemma_isqrt_unique, sin_fold_flips_m, sin_fold_m,
    sin_series_m, trem, Fixed,
};

verus! {

/// Truncating (round-toward-zero) division, the semantics hardware integer
/// division uses. Spec-level `/` on `int` is Euclidean, so the signs are
/// spelled out explicitly; both agree on non-negative operands.
pub open spec fn tdiv(a: int, b: int) -> int {
    if a >= 0 {
        if b >= 0 {
            a / b
        } else {
            -(a / -b)
        }
    } else {
        if b >= 0 {
            -(-a / b)
        } else {
            -a / -b
        }
    }
}

/// Clamps an unbounded integer into the `i64` range.
pub open spec fn sat64(v: int) -> int {
    if v < i64::MIN as int {
        i64::MIN as int
    } else if v > i64::MAX as int {
        i64::MAX as int
    } else {
        v
    }
}

/// A numeric element type for the vectors and matrices.
///
/// Every value is described by a mathematical model (`m`), and each
/// arithmetic operation is pinned to a model-level function chosen by the
/// implementation (`add_m`, ...). The operations are total: an
/// implementation over a bounded representation saturates rather than
/// panicking, and its model functions say so.
pub trait Scalar: Sized + Copy {
    /// The mathematical model of this value.
    spec fn m(self) -> int;

    /// Whether `v` is the model of some representable value.
    spec fn in_range(v: int) -> bool;

    /// Model of addition.
    spec fn add_m(a: int, b: int) -> int;

    /// Model of subtraction.
    spec fn sub_m(a: int, b: int) -> int;

    /// Model of multiplication.
    spec fn mul_m(a: int, b: int) -> int;

    /// Model of division. Implementations define the result for a zero
    /// divisor as well, so that the operation is total.
    spec fn div_m(a: int, b: int) -> int;

    /// Model of negation.
    spec fn neg_m(a: int) -> int;

    /// Every value's model is representable.
    proof fn lemma_m_in_range(self)
        ensures
            Self::in_range(self.m()),
    ;

    /// The model operations stay within the representable range.
    proof fn lemma_ops_in_range(a: int, b: int)
        ensures
            Self::in_range(Self::add_m(a, b)),
            Self::in_range(Self::sub_m(a, b)),
            Self::in_range(Self::mul_m(a, b)),
            Self::in_range(Self::div_m(a, b)),
            Self::in_range(Self::neg_m(a)),
    ;

    fn add(self, other: Self) -> (r: Self)
        ensures
            r.m() == Self::add_m(self.m(), other.m()),
    ;

    fn sub(self, other: Self) -> (r: Self)
        ensures
            r.m() == Self::sub_m(self.m(), other.m()),
    ;

    fn mul(self, other: Self) -> (r: Self)
        ensures
            r.m() == Self::mul_m(self.m(), other.m()),
    ;

    fn div(self, other: Self) -> (r: Self)
        ensures
            r.m() == Self::div_m(self.m(), other.m()),
    ;

    fn neg(self) -> (r: Self)
        ensures
            r.m() == Self::neg_m(self.m()),
    ;
}

/// A scalar with an additive identity whose model is `0`.
pub trait Zero: Scalar {
    fn zero() -> (r: Self)
        ensures
            r.m() == 0,
    ;
}

/// A scalar with a multiplicative identity.
pub trait One: Scalar {
    /// The model of the identity (`1` for plain integers, the raw scale
    /// factor for fixed-point values).
    spec fn one_m() -> int;

    fn one() -> (r: Self)
        ensures
            r.m() == Self::one_m(),
    ;
}

/// A scalar that can represent the constant two.
pub trait Two: Scalar {
    spec fn two_m() -> int;

    fn two() -> (r: Self)
        ensures
            r.m() == Self::two_m(),
    ;
}

/// Square root.
pub trait Sqrt: Scalar {
    spec fn sqrt_m(v: int) -> int;

    fn sqrt(self) -> (r: Self)
        ensures
            r.m() == Self::sqrt_m(self.m()),
    ;
}

/// Conversion from radians to degrees.
pub trait ToDegrees: Scalar {
    spec fn to_degrees_m(v: int) -> int;

    fn to_degrees(self) -> (r: Self)
        ensures
            r.m() == Self::to_degrees_m(self.m()),
    ;
}

/// Conversion from degrees to radians.
pub trait ToRadians: Scalar {
    spec fn to_radians_m(v: int) -> int;

    fn to_radians(self) -> (r: Self)
        ensures
            r.m() == Self::to_radians_m(self.m()),
    ;
}

/// Sine of an angle in radians.
pub trait Sin: Scalar {
    spec fn sin_m(v: int) -> int;

    fn sin(self) -> (r: Self)
        ensures
            r.m() == Self::sin_m(self.m()),
    ;
}

/// Cosine of an angle in radians.
pub trait Cos: Scalar {
    spec fn cos_m(v: int) -> int;

    fn cos(self) -> (r: Self)
        ensures
            r.m() == Self::cos_m(self.m()),
    ;
}

/// Tangent of an angle in radians.
pub trait Tan: Scalar {
    spec fn tan_m(v: int) -> int;

    fn tan(self) -> (r: Self)
        ensures
            r.m() == Self::tan_m(self.m()),
    ;
}

/// Multiplicative inverse.
pub trait Recip: Scalar {
    spec fn recip_m(v: int) -> int;

    fn recip(self) -> (r: Self)
        ensures
            r.m() == Self::recip_m(self.m()),
    ;
}

/// A scalar whose model operations agree with plain integer arithmetic
/// whenever the exact result is representable. `i64` qualifies; the
/// fixed-point type does not (its multiplication rescales).
///
/// The algebraic laws of the matrix library (associativity, identity)
/// are proved against these obligations.
pub trait ExactScalar: Scalar + Zero + One + Two {
    proof fn lemma_exact_add(a: int, b: int)
        ensures
            Self::in_range(a + b) ==> Self::add_m(a, b) == a + b,
    ;

    proof fn lemma_exact_sub(a: int, b: int)
        ensures
            Self::in_range(a - b) ==> Self::sub_m(a, b) == a - b,
    ;

    proof fn lemma_exact_mul(a: int, b: int)
        ensures
            Self::in_range(a * b) ==> Self::mul_m(a, b) == a * b,
    ;

    proof fn lemma_exact_neg(a: int)
        ensures
            Self::in_range(-a) ==> Self::neg_m(a) == -a,
    ;

    proof fn lemma_exact_units()
        ensures
            Self::one_m() == 1,
            Self::two_m() == 2,
    ;
}

impl Scalar for i64 {
    open spec fn m(self) -> int {
        self as int
    }

    open spec fn in_range(v: int) -> bool {
        i64::MIN as int <= v <= i64::MAX as int
    }

    open spec fn add_m(a: int, b: int) -> int {
        sat64(a + b)
    }

    open spec fn sub_m(a: int, b: int) -> int {
        sat64(a - b)
    }

    open spec fn mul_m(a: int, b: int) -> int {
        sat64(a * b)
    }

    open spec fn div_m(a: int, b: int) -> int {
        if b == 0 {
            0
        } else {
            sat64(tdiv(a, b))
        }
    }

    open spec fn neg_m(a: int) -> int {
        sat64(-a)
    }

    proof fn lemma_m_in_range(self) {
    }

    proof fn lemma_ops_in_range(a: int, b: int) {
    }

    fn add(self, other: i64) -> (r: i64) {
        match self.checked_add(other) {
            Some(v) => v,
            None => if self > 0 {
                i64::MAX
            } else {
                i64::MIN
            },
        }
    }

    fn sub(self, other: i64) -> (r: i64) {
        match self.checked_sub(other) {
            Some(v) => v,
            None => if self >= 0 {
                i64::MAX
            } else {
                i64::MIN
            },
        }
    }

    fn mul(self, other: i64) -> (r: i64) {
        match self.checked_mul(other) {
            Some(v) => v,
            None => {
                proof {
                    lemma_mul_sign(self as int, other as int);
                }
                if (self > 0) == (other > 0) {
                    i64::MAX
                } else {
                    i64::MIN
                }
            },
        }
    }

    fn div(self, other: i64) -> (r: i64) {
        div_saturating(self, other)
    }

    fn neg(self) -> (r: i64) {
        if self == i64::MIN {
            i64::MAX
        } else {
            -self
        }
    }
}

impl Zero for i64 {
    fn zero() -> (r: i64) {
        0
    }
}

impl One for i64 {
    open spec fn one_m() -> int {
        1
    }

    fn one() -> (r: i64) {
        1
    }
}

impl Two for i64 {
    open spec fn two_m() -> int {
        2
    }

    fn two() -> (r: i64) {
        2
    }
}

impl ExactScalar for i64 {
    proof fn lemma_exact_add(a: int, b: int) {
    }

    proof fn lemma_exact_sub(a: int, b: int) {
    }

    proof fn lemma_exact_mul(a: int, b: int) {
    }

    proof fn lemma_exact_neg(a: int) {
    }

    proof fn lemma_exact_units() {
    }
}

/// The sign of a product follows the signs of its factors.
proof fn lemma_mul_sign(a: int, b: int)
    ensures
        a > 0 && b > 0 ==> a * b > 0,
        a < 0 && b < 0 ==> a * b > 0,
        a > 0 && b < 0 ==> a * b < 0,
        a < 0 && b > 0 ==> a * b < 0,
        a == 0 || b == 0 ==> a * b == 0,
{
    assert(a > 0 && b > 0 ==> a * b > 0) by (nonlinear_arith);
    assert(a < 0 && b < 0 ==> a * b > 0) by (nonlinear_arith);
    assert(a > 0 && b < 0 ==> a * b < 0) by (nonlinear_arith);
    assert(a < 0 && b > 0 ==> a * b < 0) by (nonlinear_arith);
    assert(a == 0 || b == 0 ==> a * b == 0) by (nonlinear_arith);
}

/// Saturating truncating division on `i64`, with a zero divisor mapped to
/// zero. The quotient is computed on unsigned magnitudes so that the
/// truncation semantics are explicit.
fn div_saturating(a: i64, b: i64) -> (r: i64)
    ensures
        r as int == <i64 as Scalar>::div_m(a as int, b as int),
{
    if b == 0 {
        return 0;
    }
    let a_wide: i128 = a as i128;
    let b_wide: i128 = b as i128;
    let a_mag: u64 = if a_wide >= 0 {
        a_wide as u64
    } else {
        (-a_wide) as u64
    };
    let b_mag: u64 = if b_wide >= 0 {
        b_wide as u64
    } else {
        (-b_wide) as u64
    };
    let q: u64 = a_mag / b_mag;
    let negative = (a < 0) != (b < 0);
    if negative {
        if q > i64::MAX as u64 {
            i64::MIN
        } else {
            -(q as i64)
        }
    } else {
        if q > i64::MAX as u64 {
            i64::MAX
        } else {
            q as i64
        }
    }
}

} // verus!
