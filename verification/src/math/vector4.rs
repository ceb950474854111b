use vstd::prelude::*;

use crate::math::{One, Recip, Scalar, Sqrt, Two, Zero};

verus! {

/// A 4-component vector over any scalar type.
#[derive(Clone, Copy)]
pub struct Vector4<T> {
    pub x: T,
    pub y: T,
    pub z: T,
    pub w: T,
}

/// Model of the 4-component dot product, following the evaluation order
/// `x * x' + y * y' + z * z' + w * w'`.
pub open spec fn dot4_m<T: Scalar>(a: (int, int, int, int), b: (int, int, int, int)) -> int {
    T::add_m(
        T::add_m(T::add_m(T::mul_m(a.0, b.0), T::mul_m(a.1, b.1)), T::mul_m(a.2, b.2)),
        T::mul_m(a.3, b.3),
    )
}

impl<T> Vector4<T> {
    pub fn new(x: T, y: T, z: T, w: T) -> (r: Self)
        ensures
            r.x == x,
            r.y == y,
            r.z == z,
            r.w == w,
    {
        Vector4 { x, y, z, w }
    }
}

impl<T: Scalar> Vector4<T> {
    /// The models of the components.
    pub open spec fn models(self) -> (int, int, int, int) {
        (self.x.m(), self.y.m(), self.z.m(), self.w.m())
    }

    pub fn dot(self, other: Self) -> (r: T)
        ensures
            r.m() == dot4_m::<T>(self.models(), other.models()),
    {
        self.x.mul(other.x).add(self.y.mul(other.y)).add(self.z.mul(other.z)).add(
            self.w.mul(other.w),
        )
    }

    pub fn sqr_length(self) -> (r: T)
        ensures
            r.m() == dot4_m::<T>(self.models(), self.models()),
    {
        self.dot(self)
    }

    /// Componentwise addition.
    pub fn add(self, other: Self) -> (r: Self)
        ensures
            r.x.m() == T::add_m(self.x.m(), other.x.m()),
            r.y.m() == T::add_m(self.y.m(), other.y.m()),
            r.z.m() == T::add_m(self.z.m(), other.z.m()),
            r.w.m() == T::add_m(self.w.m(), other.w.m()),
    {
        Vector4 {
            x: self.x.add(other.x),
            y: self.y.add(other.y),
            z: self.z.add(other.z),
            w: self.w.add(other.w),
        }
    }

    /// Componentwise subtraction.
    pub fn sub(self, other: Self) -> (r: Self)
        ensures
            r.x.m() == T::sub_m(self.x.m(), other.x.m()),
            r.y.m() == T::sub_m(self.y.m(), other.y.m()),
            r.z.m() == T::sub_m(self.z.m(), other.z.m()),
            r.w.m() == T::sub_m(self.w.m(), other.w.m()),
    {
        Vector4 {
            x: self.x.sub(other.x),
            y: self.y.sub(other.y),
            z: self.z.sub(other.z),
            w: self.w.sub(other.w),
        }
    }

    /// Componentwise multiplication.
    pub fn mul(self, other: Self) -> (r: Self)
        ensures
            r.x.m() == T::mul_m(self.x.m(), other.x.m()),
            r.y.m() == T::mul_m(self.y.m(), other.y.m()),
            r.z.m() == T::mul_m(self.z.m(), other.z.m()),
            r.w.m() == T::mul_m(self.w.m(), other.w.m()),
    {
        Vector4 {
            x: self.x.mul(other.x),
            y: self.y.mul(other.y),
            z: self.z.mul(other.z),
            w: self.w.mul(other.w),
        }
    }

    /// Componentwise division.
    pub fn div(self, other: Self) -> (r: Self)
        ensures
            r.x.m() == T::div_m(self.x.m(), other.x.m()),
            r.y.m() == T::div_m(self.y.m(), other.y.m()),
            r.z.m() == T::div_m(self.z.m(), other.z.m()),
            r.w.m() == T::div_m(self.w.m(), other.w.m()),
    {
        Vector4 {
            x: self.x.div(other.x),
            y: self.y.div(other.y),
            z: self.z.div(other.z),
            w: self.w.div(other.w),
        }
    }

    /// Componentwise negation.
    pub fn neg(self) -> (r: Self)
        ensures
            r.x.m() == T::neg_m(self.x.m()),
            r.y.m() == T::neg_m(self.y.m()),
            r.z.m() == T::neg_m(self.z.m()),
            r.w.m() == T::neg_m(self.w.m()),
    {
        Vector4 { x: self.x.neg(), y: self.y.neg(), z: self.z.neg(), w: self.w.neg() }
    }

    /// All components set to the same scalar.
    pub fn splat(v: T) -> (r: Self)
        ensures
            r.x == v,
            r.y == v,
            r.z == v,
            r.w == v,
    {
        Vector4 { x: v, y: v, z: v, w: v }
    }
}

impl<T: Scalar + Zero> Vector4<T> {
    pub fn zero() -> (r: Self)
        ensures
            r.x.m() == 0,
            r.y.m() == 0,
            r.z.m() == 0,
            r.w.m() == 0,
    {
        Vector4 { x: T::zero(), y: T::zero(), z: T::zero(), w: T::zero() }
    }
}

impl<T: Scalar + One> Vector4<T> {
    pub fn one() -> (r: Self)
        ensures
            r.x.m() == T::one_m(),
            r.y.m() == T::one_m(),
            r.z.m() == T::one_m(),
            r.w.m() == T::one_m(),
    {
        Vector4 { x: T::one(), y: T::one(), z: T::one(), w: T::one() }
    }
}

impl<T: Scalar + Sqrt> Vector4<T> {
    pub fn length(self) -> (r: T)
        ensures
            r.m() == T::sqrt_m(dot4_m::<T>(self.models(), self.models())),
    {
        self.sqr_length().sqrt()
    }
}

impl<T: Scalar + Sqrt + Recip> Vector4<T> {
    /// The vector scaled by the reciprocal of its length.
    pub fn normalized(self) -> (r: Self)
        ensures
            ({
                let inv = T::recip_m(T::sqrt_m(dot4_m::<T>(self.models(), self.models())));
                r.x.m() == T::mul_m(self.x.m(), inv) && r.y.m() == T::mul_m(self.y.m(), inv)
                    && r.z.m() == T::mul_m(self.z.m(), inv) && r.w.m() == T::mul_m(
                    self.w.m(),
                    inv,
                )
            }),
    {
        self.mul(Vector4::splat(self.length().recip()))
    }
}

impl<T: Scalar + Two> Vector4<T> {
    /// Reflection about a normal: `self - 2 * dot(self, normal) * normal`.
    pub fn reflect(self, normal: Self) -> (r: Self)
        ensures
            ({
                let d = T::mul_m(T::two_m(), dot4_m::<T>(self.models(), normal.models()));
                r.x.m() == T::sub_m(self.x.m(), T::mul_m(d, normal.x.m())) && r.y.m()
                    == T::sub_m(self.y.m(), T::mul_m(d, normal.y.m())) && r.z.m() == T::sub_m(
                    self.z.m(),
                    T::mul_m(d, normal.z.m()),
                ) && r.w.m() == T::sub_m(self.w.m(), T::mul_m(d, normal.w.m()))
            }),
    {
        self.sub(Vector4::splat(T::two().mul(self.dot(normal))).mul(normal))
    }
}

} // verus!
