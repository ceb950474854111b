use vstd::prelude::*;

use crate::math::{One, Recip, Scalar, Sqrt, Two, Zero};

verus! {

/// A 2-component vector over any scalar type.
#[derive(Clone, Copy)]
pub struct Vector2<T> {
    pub x: T,
    pub y: T,
}

/// Model of the 2-component dot product, following the evaluation order
/// `x * x' + y * y'`.
pub open spec fn dot2_m<T: Scalar>(a: (int, int), b: (int, int)) -> int {
    T::add_m(T::mul_m(a.0, b.0), T::mul_m(a.1, b.1))
}

impl<T> Vector2<T> {
    pub fn new(x: T, y: T) -> (r: Self)
        ensures
            r.x == x,
            r.y == y,
    {
        Vector2 { x, y }
    }
}

impl<T: Scalar> Vector2<T> {
    /// The models of the components.
    pub open spec fn models(self) -> (int, int) {
        (self.x.m(), self.y.m())
    }

    pub fn dot(self, other: Self) -> (r: T)
        ensures
            r.m() == dot2_m::<T>(self.models(), other.models()),
    {
        self.x.mul(other.x).add(self.y.mul(other.y))
    }

    pub fn sqr_length(self) -> (r: T)
        ensures
            r.m() == dot2_m::<T>(self.models(), self.models()),
    {
        self.dot(self)
    }

    /// Componentwise addition.
    pub fn add(self, other: Self) -> (r: Self)
        ensures
            r.x.m() == T::add_m(self.x.m(), other.x.m()),
            r.y.m() == T::add_m(self.y.m(), other.y.m()),
    {
        Vector2 { x: self.x.add(other.x), y: self.y.add(other.y) }
    }

    /// Componentwise subtraction.
    pub fn sub(self, other: Self) -> (r: Self)
        ensures
            r.x.m() == T::sub_m(self.x.m(), other.x.m()),
            r.y.m() == T::sub_m(self.y.m(), other.y.m()),
    {
        Vector2 { x: self.x.sub(other.x), y: self.y.sub(other.y) }
    }

    /// Componentwise multiplication.
    pub fn mul(self, other: Self) -> (r: Self)
        ensures
            r.x.m() == T::mul_m(self.x.m(), other.x.m()),
            r.y.m() == T::mul_m(self.y.m(), other.y.m()),
    {
        Vector2 { x: self.x.mul(other.x), y: self.y.mul(other.y) }
    }

    /// Componentwise division.
    pub fn div(self, other: Self) -> (r: Self)
        ensures
            r.x.m() == T::div_m(self.x.m(), other.x.m()),
            r.y.m() == T::div_m(self.y.m(), other.y.m()),
    {
        Vector2 { x: self.x.div(other.x), y: self.y.div(other.y) }
    }

    /// Componentwise negation.
    pub fn neg(self) -> (r: Self)
        ensures
            r.x.m() == T::neg_m(self.x.m()),
            r.y.m() == T::neg_m(self.y.m()),
    {
        Vector2 { x: self.x.neg(), y: self.y.neg() }
    }

    /// Both components set to the same scalar.
    pub fn splat(v: T) -> (r: Self)
        ensures
            r.x == v,
            r.y == v,
    {
        Vector2 { x: v, y: v }
    }
}

impl<T: Scalar + Zero> Vector2<T> {
    pub fn zero() -> (r: Self)
        ensures
            r.x.m() == 0,
            r.y.m() == 0,
    {
        Vector2 { x: T::zero(), y: T::zero() }
    }
}

impl<T: Scalar + One> Vector2<T> {
    pub fn one() -> (r: Self)
        ensures
            r.x.m() == T::one_m(),
            r.y.m() == T::one_m(),
    {
        Vector2 { x: T::one(), y: T::one() }
    }
}

impl<T: Scalar + Sqrt> Vector2<T> {
    pub fn length(self) -> (r: T)
        ensures
            r.m() == T::sqrt_m(dot2_m::<T>(self.models(), self.models())),
    {
        self.sqr_length().sqrt()
    }
}

impl<T: Scalar + Sqrt + Recip> Vector2<T> {
    /// The vector scaled by the reciprocal of its length.
    pub fn normalized(self) -> (r: Self)
        ensures
            ({
                let inv = T::recip_m(T::sqrt_m(dot2_m::<T>(self.models(), self.models())));
                r.x.m() == T::mul_m(self.x.m(), inv) && r.y.m() == T::mul_m(self.y.m(), inv)
            }),
    {
        self.mul(Vector2::splat(self.length().recip()))
    }
}

impl<T: Scalar + Two> Vector2<T> {
    /// Reflection about a normal: `self - 2 * dot(self, normal) * normal`.
    pub fn reflect(self, normal: Self) -> (r: Self)
        ensures
            ({
                let d = T::mul_m(T::two_m(), dot2_m::<T>(self.models(), normal.models()));
                r.x.m() == T::sub_m(self.x.m(), T::mul_m(d, normal.x.m())) && r.y.m()
                    == T::sub_m(self.y.m(), T::mul_m(d, normal.y.m()))
            }),
    {
        self.sub(Vector2::splat(T::two().mul(self.dot(normal))).mul(normal))
    }
}

} // verus!
