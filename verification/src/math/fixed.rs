use vstd::prelude::*;

use crate::math::{
    sat64, tdiv, Cos, One, Recip, Scalar, Sin, Sqrt, Tan, ToDegrees, ToRadians, Two, Zero,
};

verus! {

/// A signed 48.16 fixed-point number: the raw `i64` counts units of
/// `1 / 65536`. This is the concrete scalar the renderer uses for
/// matrices, camera parameters and colors; a host program converts the
/// raw value to its native floating-point type at the GPU boundary.
///
/// All operations are total: results outside the representable range
/// saturate, and division by zero yields zero. The model functions of the
/// [`Scalar`] implementation state those choices exactly.
#[derive(Clone, Copy, PartialEq, Eq, Structural)]
pub struct Fixed {
    raw: i64,
}

/// Truncating remainder (sign of the dividend), defined from [`tdiv`].
pub open spec fn trem(a: int, b: int) -> int {
    a - tdiv(a, b) * b
}

/// The greatest `r >= 0` with `r * r <= n` (zero for negative `n`).
pub open spec fn isqrt(n: int) -> int
    decreases n,
{
    if n <= 0 {
        0
    } else {
        let r = isqrt(n - 1);
        if (r + 1) * (r + 1) <= n {
            r + 1
        } else {
            r
        }
    }
}

/// `isqrt` is the integer square root: non-negative, and squaring it
/// brackets `n`.
pub proof fn lemma_isqrt_bounds(n: int)
    requires
        n >= 0,
    ensures
        isqrt(n) >= 0,
        isqrt(n) * isqrt(n) <= n,
        n < (isqrt(n) + 1) * (isqrt(n) + 1),
    decreases n,
{
    if n == 0 {
    } else {
        lemma_isqrt_bounds(n - 1);
        let r = isqrt(n - 1);
        if (r + 1) * (r + 1) <= n {
            assert(n < (r + 2) * (r + 2)) by (nonlinear_arith)
                requires
                    n <= (r + 1) * (r + 1),
                    r >= 0,
            ;
        }
    }
}

/// The bracketing characterization determines the integer square root
/// uniquely.
pub proof fn lemma_isqrt_unique(n: int, r: int)
    requires
        n >= 0,
        r >= 0,
        r * r <= n,
        n < (r + 1) * (r + 1),
    ensures
        r == isqrt(n),
{
    lemma_isqrt_bounds(n);
    let s = isqrt(n);
    if r < s {
        assert((r + 1) * (r + 1) <= s * s) by (nonlinear_arith)
            requires
                0 <= r,
                r < s,
        ;
    }
    if s < r {
        assert((s + 1) * (s + 1) <= r * r) by (nonlinear_arith)
            requires
                0 <= s,
                s < r,
        ;
    }
}

/// Saturating truncating division of an `i128` by a non-zero `i128`,
/// clamped into `i64`. The quotient is computed on unsigned magnitudes so
/// that truncation toward zero is explicit.
fn sat_div_wide(p: i128, d: i128) -> (r: i64)
    requires
        d != 0,
        p > i128::MIN,
        d > i128::MIN,
    ensures
        r as int == sat64(tdiv(p as int, d as int)),
{
    let p_mag: u128 = if p >= 0 {
        p as u128
    } else {
        (-p) as u128
    };
    let d_mag: u128 = if d >= 0 {
        d as u128
    } else {
        (-d) as u128
    };
    let q: u128 = p_mag / d_mag;
    let negative = (p < 0) != (d < 0);
    if negative {
        if q > i64::MAX as u128 {
            i64::MIN
        } else {
            -(q as i64)
        }
    } else {
        if q > i64::MAX as u128 {
            i64::MAX
        } else {
            q as i64
        }
    }
}

/// Truncating remainder of `a` by a positive `b`, computed on magnitudes.
fn rem_trunc(a: i64, b: i64) -> (r: i64)
    requires
        b > 0,
        a > i64::MIN,
    ensures
        r as int == trem(a as int, b as int),
        -b < r < b,
{
    let a_mag: u64 = if a >= 0 {
        a as u64
    } else {
        (-a) as u64
    };
    let m: u64 = a_mag % (b as u64);
    proof {
        let ai = a as int;
        let bi = b as int;
        if ai >= 0 {
            vstd::arithmetic::div_mod::lemma_fundamental_div_mod(ai, bi);
            let q = ai / bi;
            let t = tdiv(ai, bi);
            assert(t == q);
            assert(t * bi == q * bi) by (nonlinear_arith)
                requires
                    t == q,
            ;
            assert(ai % bi == ai - bi * q);
            assert(trem(ai, bi) == ai - q * bi);
        } else {
            vstd::arithmetic::div_mod::lemma_fundamental_div_mod(-ai, bi);
            let q = (-ai) / bi;
            let t = tdiv(ai, bi);
            assert(t == -q);
            assert(t * bi == -(q * bi)) by (nonlinear_arith)
                requires
                    t == -q,
            ;
            assert((-ai) % bi == -ai - bi * q);
            assert(trem(ai, bi) == ai + q * bi);
        }
    }
    proof {
        assert(a >= 0 ==> a_mag as int == a as int);
        assert(a < 0 ==> a_mag as int == -(a as int));
        assert(m as int == (a_mag as int) % (b as int));
        assert((m as int) < b as int);
    }
    if a >= 0 {
        assert(m as int == (a as int) % (b as int));
        assert((a as int) % (b as int) == a as int - (b as int) * ((a as int) / (b as int)));
        assert(trem(a as int, b as int) == a as int - ((a as int) / (b as int)) * (b as int));
        assert(m as int == trem(a as int, b as int)) by (nonlinear_arith)
            requires
                m as int == a as int - (b as int) * ((a as int) / (b as int)),
                trem(a as int, b as int) == a as int - ((a as int) / (b as int)) * (b as int),
        ;
        m as i64
    } else {
        assert(m as int == (-(a as int)) % (b as int));
        assert((-(a as int)) % (b as int) == -(a as int) - (b as int) * ((-(a as int)) / (
        b as int)));
        assert(trem(a as int, b as int) == a as int + ((-(a as int)) / (b as int)) * (
        b as int));
        assert(0 - (m as int) == trem(a as int, b as int)) by (nonlinear_arith)
            requires
                m as int == -(a as int) - (b as int) * ((-(a as int)) / (b as int)),
                trem(a as int, b as int) == a as int + ((-(a as int)) / (b as int)) * (
                b as int),
        ;
        -(m as i64)
    }
}

/// Euclidean division of a non-negative value by a positive divisor.
fn qdiv(a: i64, b: i64) -> (r: i64)
    requires
        a >= 0,
        b > 0,
    ensures
        r as int == a as int / b as int,
        0 <= r <= a,
{
    let q: u64 = (a as u64) / (b as u64);
    q as i64
}

impl Fixed {
    /// The scale factor: raw values count units of `1 / 65536`.
    pub open spec fn scale() -> int {
        65536
    }

    /// Builds the value `v` (saturating at the range ends).
    pub fn from_int(v: i64) -> (r: Fixed)
        ensures
            r.m() == sat64(v as int * 65536),
    {
        match v.checked_mul(65536) {
            Some(raw) => Fixed { raw },
            None => {
                proof {
                    assert(v as int > 0 ==> v as int * 65536 >= v as int) by (nonlinear_arith);
                    assert((v as int) < 0 ==> v as int * 65536 <= v as int) by (nonlinear_arith);
                }
                if v > 0 {
                    Fixed { raw: i64::MAX }
                } else {
                    Fixed { raw: i64::MIN }
                }
            },
        }
    }

    /// Builds a value from its raw 48.16 representation.
    pub fn from_raw(raw: i64) -> (r: Fixed)
        ensures
            r.m() == raw as int,
    {
        Fixed { raw }
    }

    /// The raw 48.16 representation.
    pub fn raw(self) -> (r: i64)
        ensures
            r as int == self.m(),
    {
        self.raw
    }

    /// The quotient `num / den` as a fixed-point value (truncating;
    /// zero for a zero divisor).
    pub fn from_ratio(num: i64, den: i64) -> (r: Fixed)
        ensures
            den != 0 ==> r.m() == sat64(tdiv(num as int * 65536, den as int)),
            den == 0 ==> r.m() == 0,
    {
        if den == 0 {
            Fixed { raw: 0 }
        } else {
            let p: i128 = (num as i128) * 65536;
            Fixed { raw: sat_div_wide(p, den as i128) }
        }
    }
}

impl Scalar for Fixed {
    closed spec fn m(self) -> int {
        self.raw as int
    }

    open spec fn in_range(v: int) -> bool {
        i64::MIN as int <= v <= i64::MAX as int
    }

    open spec fn add_m(a: int, b: int) -> int {
        sat64(a + b)
    }

    open spec fn sub_m(a: int, b: int) -> int {
        sat64(a - b)
    }

    open spec fn mul_m(a: int, b: int) -> int {
        sat64(tdiv(a * b, 65536))
    }

    open spec fn div_m(a: int, b: int) -> int {
        if b == 0 {
            0
        } else {
            sat64(tdiv(a * 65536, b))
        }
    }

    open spec fn neg_m(a: int) -> int {
        sat64(-a)
    }

    proof fn lemma_m_in_range(self) {
    }

    proof fn lemma_ops_in_range(a: int, b: int) {
    }

    fn add(self, other: Fixed) -> (r: Fixed) {
        match self.raw.checked_add(other.raw) {
            Some(raw) => Fixed { raw },
            None => if self.raw > 0 {
                Fixed { raw: i64::MAX }
            } else {
                Fixed { raw: i64::MIN }
            },
        }
    }

    fn sub(self, other: Fixed) -> (r: Fixed) {
        match self.raw.checked_sub(other.raw) {
            Some(raw) => Fixed { raw },
            None => if self.raw >= 0 {
                Fixed { raw: i64::MAX }
            } else {
                Fixed { raw: i64::MIN }
            },
        }
    }

    fn mul(self, other: Fixed) -> (r: Fixed) {
        proof {
            assert(-0x4000_0000_0000_0000_0000_0000_0000_0000 <= self.raw as int
                * other.raw as int <= 0x4000_0000_0000_0000_0000_0000_0000_0000) by (
            nonlinear_arith)
                requires
                    i64::MIN as int <= self.raw as int <= i64::MAX as int,
                    i64::MIN as int <= other.raw as int <= i64::MAX as int,
            ;
        }
        let p: i128 = (self.raw as i128) * (other.raw as i128);
        Fixed { raw: sat_div_wide(p, 65536) }
    }

    fn div(self, other: Fixed) -> (r: Fixed) {
        if other.raw == 0 {
            Fixed { raw: 0 }
        } else {
            let p: i128 = (self.raw as i128) * 65536;
            Fixed { raw: sat_div_wide(p, other.raw as i128) }
        }
    }

    fn neg(self) -> (r: Fixed) {
        if self.raw == i64::MIN {
            Fixed { raw: i64::MAX }
        } else {
            Fixed { raw: -self.raw }
        }
    }
}

impl Zero for Fixed {
    fn zero() -> (r: Fixed) {
        Fixed { raw: 0 }
    }
}

impl One for Fixed {
    open spec fn one_m() -> int {
        65536
    }

    fn one() -> (r: Fixed) {
        Fixed { raw: 65536 }
    }
}

impl Two for Fixed {
    open spec fn two_m() -> int {
        131072
    }

    fn two() -> (r: Fixed) {
        Fixed { raw: 131072 }
    }
}

impl ToRadians for Fixed {
    /// `v * pi / 180`, with `pi` as the raw constant `205887`.
    open spec fn to_radians_m(v: int) -> int {
        sat64(tdiv(v * 205887, 11796480))
    }

    fn to_radians(self) -> (r: Fixed) {
        let p: i128 = (self.raw as i128) * 205887;
        Fixed { raw: sat_div_wide(p, 11796480) }
    }
}

impl ToDegrees for Fixed {
    /// `v * 180 / pi`, with `pi` as the raw constant `205887`.
    open spec fn to_degrees_m(v: int) -> int {
        sat64(tdiv(v * 11796480, 205887))
    }

    fn to_degrees(self) -> (r: Fixed) {
        let p: i128 = (self.raw as i128) * 11796480;
        Fixed { raw: sat_div_wide(p, 205887) }
    }
}

/// Folds a raw angle into `(-102944, 102944)` (about `[-pi/2, pi/2]`).
/// The sine of the folded angle equals the sine of the angle given.
/// Raw angle constants: `pi == 205887`, `2 * pi == 411774`; the one raw
/// value without a negation (`i64::MIN`) is first shifted by a period.
pub open spec fn sin_fold_m(v: int) -> int {
    let v1 = if v == i64::MIN as int {
        v + 411774
    } else {
        v
    };
    let x0 = trem(v1, 411774);
    let x1 = if x0 > 205887 {
        x0 - 411774
    } else if x0 < -205887 {
        x0 + 411774
    } else {
        x0
    };
    if x1 > 102943 {
        205887 - x1
    } else if x1 < -102943 {
        -205887 - x1
    } else {
        x1
    }
}

/// Degree-5 Taylor polynomial of sine at a non-negative folded angle, in
/// raw units. Exactly zero at zero.
pub open spec fn sin_series_m(x: int) -> int {
    let x2 = (x * x) / 65536;
    let x3 = (x2 * x) / 65536;
    let x5 = (x3 * x2) / 65536;
    x - x3 / 6 + x5 / 120
}

/// Degree-6 Taylor polynomial of cosine at a non-negative folded angle,
/// in raw units. Exactly `65536` (one) at zero.
pub open spec fn cos_series_m(x: int) -> int {
    let x2 = (x * x) / 65536;
    let x4 = (x2 * x2) / 65536;
    let x6 = (x4 * x2) / 65536;
    65536 - x2 / 2 + x4 / 24 - x6 / 720
}

/// Evaluates the sine polynomial on a folded magnitude.
fn sin_series(x: i64) -> (r: i64)
    requires
        0 <= x < 102944,
    ensures
        r as int == sin_series_m(x as int),
        -2000000 <= r <= 2000000,
{
    proof {
        assert(x as int * x as int <= 10597467136) by (nonlinear_arith)
            requires
                0 <= (x as int) < 102944,
        ;
    }
    let x2: i64 = qdiv(x * x, 65536);
    proof {
        assert(x2 as int * x as int <= 161706 * 102944) by (nonlinear_arith)
            requires
                0 <= x2 as int <= 161706,
                0 <= (x as int) < 102944,
        ;
    }
    let x3: i64 = qdiv(x2 * x, 65536);
    proof {
        assert(x3 as int * x2 as int <= 254017 * 161706) by (nonlinear_arith)
            requires
                0 <= x3 as int <= 254017,
                0 <= x2 as int <= 161706,
        ;
    }
    let x5: i64 = qdiv(x3 * x2, 65536);
    x - qdiv(x3, 6) + qdiv(x5, 120)
}

/// Evaluates the cosine polynomial on a folded magnitude.
fn cos_series(x: i64) -> (r: i64)
    requires
        0 <= x < 102944,
    ensures
        r as int == cos_series_m(x as int),
        -2000000 <= r <= 2000000,
{
    proof {
        assert(x as int * x as int <= 10597467136) by (nonlinear_arith)
            requires
                0 <= (x as int) < 102944,
        ;
    }
    let x2: i64 = qdiv(x * x, 65536);
    proof {
        assert(x2 as int * x2 as int <= 161706 * 161706) by (nonlinear_arith)
            requires
                0 <= x2 as int <= 161706,
        ;
    }
    let x4: i64 = qdiv(x2 * x2, 65536);
    proof {
        assert(x4 as int * x2 as int <= 399000 * 161706) by (nonlinear_arith)
            requires
                0 <= x4 as int <= 399000,
                0 <= x2 as int <= 161706,
        ;
    }
    let x6: i64 = qdiv(x4 * x2, 65536);
    65536 - qdiv(x2, 2) + qdiv(x4, 24) - qdiv(x6, 720)
}

/// Folds a raw angle as [`sin_fold_m`] describes.
fn sin_fold(v: i64) -> (r: i64)
    ensures
        r as int == sin_fold_m(v as int),
        -102944 < r < 102944,
{
    let v1: i64 = if v == i64::MIN {
        v + 411774
    } else {
        v
    };
    let x0: i64 = rem_trunc(v1, 411774);
    let x1: i64 = if x0 > 205887 {
        x0 - 411774
    } else if x0 < -205887 {
        x0 + 411774
    } else {
        x0
    };
    if x1 > 102943 {
        205887 - x1
    } else if x1 < -102943 {
        -205887 - x1
    } else {
        x1
    }
}

impl Sin for Fixed {
    /// Sine by range reduction and a degree-5 Taylor polynomial on the
    /// magnitude of the folded angle; exact at zero, within about half a
    /// percent of scale elsewhere.
    open spec fn sin_m(v: int) -> int {
        let x = sin_fold_m(v);
        if x < 0 {
            -sin_series_m(-x)
        } else {
            sin_series_m(x)
        }
    }

    fn sin(self) -> (r: Fixed) {
        let x: i64 = sin_fold(self.raw);
        if x < 0 {
            Fixed { raw: -sin_series(-x) }
        } else {
            Fixed { raw: sin_series(x) }
        }
    }
}

impl Cos for Fixed {
    /// Cosine of the folded angle: the fold keeps the magnitude of the
    /// cosine (the sign records which half of the circle the angle is
    /// in), so the even polynomial is evaluated on the magnitude.
    open spec fn cos_m(v: int) -> int {
        let x = sin_fold_m(v);
        let quadrant_flip = sin_fold_flips_m(v);
        let xa = if x < 0 {
            -x
        } else {
            x
        };
        if quadrant_flip {
            -cos_series_m(xa)
        } else {
            cos_series_m(xa)
        }
    }

    fn cos(self) -> (r: Fixed) {
        let x: i64 = sin_fold(self.raw);
        let flip: bool = sin_fold_flips(self.raw);
        let xa: i64 = if x < 0 {
            -x
        } else {
            x
        };
        if flip {
            Fixed { raw: -cos_series(xa) }
        } else {
            Fixed { raw: cos_series(xa) }
        }
    }
}

/// Whether the fold of [`sin_fold_m`] reflected the angle across
/// `pi / 2` (the half of the circle where the cosine is negative).
pub open spec fn sin_fold_flips_m(v: int) -> bool {
    let v1 = if v == i64::MIN as int {
        v + 411774
    } else {
        v
    };
    let x0 = trem(v1, 411774);
    let x1 = if x0 > 205887 {
        x0 - 411774
    } else if x0 < -205887 {
        x0 + 411774
    } else {
        x0
    };
    x1 > 102943 || x1 < -102943
}

/// Recomputes the fold of [`sin_fold`] and reports whether it reflected.
fn sin_fold_flips(v: i64) -> (r: bool)
    ensures
        r == sin_fold_flips_m(v as int),
{
    let v1: i64 = if v == i64::MIN {
        v + 411774
    } else {
        v
    };
    let x0: i64 = rem_trunc(v1, 411774);
    let x1: i64 = if x0 > 205887 {
        x0 - 411774
    } else if x0 < -205887 {
        x0 + 411774
    } else {
        x0
    };
    x1 > 102943 || x1 < -102943
}

impl Tan for Fixed {
    /// Tangent as the quotient of the sine and cosine approximations
    /// (zero where the cosine approximation is zero).
    open spec fn tan_m(v: int) -> int {
        Self::div_m(Self::sin_m(v), Self::cos_m(v))
    }

    fn tan(self) -> (r: Fixed) {
        self.sin().div(self.cos())
    }
}

impl Recip for Fixed {
    /// `1 / v` (truncating; zero for zero).
    open spec fn recip_m(v: int) -> int {
        if v == 0 {
            0
        } else {
            sat64(tdiv(4294967296, v))
        }
    }

    fn recip(self) -> (r: Fixed) {
        if self.raw == 0 {
            Fixed { raw: 0 }
        } else {
            Fixed { raw: sat_div_wide(4294967296, self.raw as i128) }
        }
    }
}

impl Sqrt for Fixed {
    /// The integer square root of the value rescaled so that the result
    /// is again in raw 48.16 units (zero for negative values).
    open spec fn sqrt_m(v: int) -> int {
        if v < 0 {
            0
        } else {
            isqrt(v * 65536)
        }
    }

    fn sqrt(self) -> (r: Fixed) {
        if self.raw < 0 {
            return Fixed { raw: 0 };
        }
        let n: u128 = (self.raw as u128) * 65536;
        let mut lo: u128 = 0;
        // 2^40, whose square 2^80 is above any rescaled raw value
        let mut hi: u128 = 1099511627776;
        proof {
            assert(hi as int * hi as int > n as int) by (nonlinear_arith)
                requires
                    hi as int == 1099511627776,
                    n as int <= i64::MAX as int * 65536,
            ;
        }
        while lo + 1 < hi
            invariant
                lo < hi,
                hi <= 1099511627776,
                lo * lo <= n,
                n < hi * hi,
            decreases hi - lo,
        {
            let mid: u128 = lo + (hi - lo) / 2;
            proof {
                assert((mid as int * mid as int) < 1099511627776 * 1099511627776) by (
                nonlinear_arith)
                    requires
                        0 <= (mid as int) < 1099511627776,
                ;
            }
            if mid * mid <= n {
                lo = mid;
            } else {
                hi = mid;
            }
        }
        proof {
            lemma_isqrt_unique(n as int, lo as int);
            assert(lo as int <= i64::MAX as int) by (nonlinear_arith)
                requires
                    lo as int * lo as int <= n as int,
                    n as int <= i64::MAX as int * 65536,
                    lo as int >= 0,
            ;
        }
        Fixed { raw: lo as i64 }
    }
}

} // verus!
