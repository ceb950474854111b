use vstd::prelude::*;

use crate::math::{One, Recip, Scalar, Sqrt, Two, Zero};

verus! {

/// A 3-component vector over any scalar type.
#[derive(Clone, Copy)]
pub struct Vector3<T> {
    pub x: T,
    pub y: T,
    pub z: T,
}

/// Model of the 3-component dot product, following the evaluation order
/// `x * x' + y * y' + z * z'`.
pub open spec fn dot3_m<T: Scalar>(a: (int, int, int), b: (int, int, int)) -> int {
    T::add_m(T::add_m(T::mul_m(a.0, b.0), T::mul_m(a.1, b.1)), T::mul_m(a.2, b.2))
}

impl<T> Vector3<T> {
    pub fn new(x: T, y: T, z: T) -> (r: Self)
        ensures
            r.x == x,
            r.y == y,
            r.z == z,
    {
        Vector3 { x, y, z }
    }
}

impl<T: Scalar> Vector3<T> {
    /// The models of the components.
    pub open spec fn models(self) -> (int, int, int) {
        (self.x.m(), self.y.m(), self.z.m())
    }

    pub fn dot(self, other: Self) -> (r: T)
        ensures
            r.m() == dot3_m::<T>(self.models(), other.models()),
    {
        self.x.mul(other.x).add(self.y.mul(other.y)).add(self.z.mul(other.z))
    }

    pub fn sqr_length(self) -> (r: T)
        ensures
            r.m() == dot3_m::<T>(self.models(), self.models()),
    {
        self.dot(self)
    }

    /// The cross product, componentwise
    /// `(y*z' - z*y', z*x' - x*z', x*y' - y*x')`.
    pub fn cross(self, other: Self) -> (r: Self)
        ensures
            r.x.m() == T::sub_m(T::mul_m(self.y.m(), other.z.m()), T::mul_m(self.z.m(), other.y.m())),
            r.y.m() == T::sub_m(T::mul_m(self.z.m(), other.x.m()), T::mul_m(self.x.m(), other.z.m())),
            r.z.m() == T::sub_m(T::mul_m(self.x.m(), other.y.m()), T::mul_m(self.y.m(), other.x.m())),
    {
        Vector3 {
            x: self.y.mul(other.z).sub(self.z.mul(other.y)),
            y: self.z.mul(other.x).sub(self.x.mul(other.z)),
            z: self.x.mul(other.y).sub(self.y.mul(other.x)),
        }
    }

    /// Componentwise addition.
    pub fn add(self, other: Self) -> (r: Self)
        ensures
            r.x.m() == T::add_m(self.x.m(), other.x.m()),
            r.y.m() == T::add_m(self.y.m(), other.y.m()),
            r.z.m() == T::add_m(self.z.m(), other.z.m()),
    {
        Vector3 { x: self.x.add(other.x), y: self.y.add(other.y), z: self.z.add(other.z) }
    }

    /// Componentwise subtraction.
    pub fn sub(self, other: Self) -> (r: Self)
        ensures
            r.x.m() == T::sub_m(self.x.m(), other.x.m()),
            r.y.m() == T::sub_m(self.y.m(), other.y.m()),
            r.z.m() == T::sub_m(self.z.m(), other.z.m()),
    {
        Vector3 { x: self.x.sub(other.x), y: self.y.sub(other.y), z: self.z.sub(other.z) }
    }

    /// Componentwise multiplication.
    pub fn mul(self, other: Self) -> (r: Self)
        ensures
            r.x.m() == T::mul_m(self.x.m(), other.x.m()),
            r.y.m() == T::mul_m(self.y.m(), other.y.m()),
            r.z.m() == T::mul_m(self.z.m(), other.z.m()),
    {
        Vector3 { x: self.x.mul(other.x), y: self.y.mul(other.y), z: self.z.mul(other.z) }
    }

    /// Componentwise division.
    pub fn div(self, other: Self) -> (r: Self)
        ensures
            r.x.m() == T::div_m(self.x.m(), other.x.m()),
            r.y.m() == T::div_m(self.y.m(), other.y.m()),
            r.z.m() == T::div_m(self.z.m(), other.z.m()),
    {
        Vector3 { x: self.x.div(other.x), y: self.y.div(other.y), z: self.z.div(other.z) }
    }

    /// Componentwise negation.
    pub fn neg(self) -> (r: Self)
        ensures
            r.x.m() == T::neg_m(self.x.m()),
            r.y.m() == T::neg_m(self.y.m()),
            r.z.m() == T::neg_m(self.z.m()),
    {
        Vector3 { x: self.x.neg(), y: self.y.neg(), z: self.z.neg() }
    }

    /// All components set to the same scalar.
    pub fn splat(v: T) -> (r: Self)
        ensures
            r.x == v,
            r.y == v,
            r.z == v,
    {
        Vector3 { x: v, y: v, z: v }
    }
}

impl<T: Scalar + Zero> Vector3<T> {
    pub fn zero() -> (r: Self)
        ensures
            r.x.m() == 0,
            r.y.m() == 0,
            r.z.m() == 0,
    {
        Vector3 { x: T::zero(), y: T::zero(), z: T::zero() }
    }
}

impl<T: Scalar + One> Vector3<T> {
    pub fn one() -> (r: Self)
        ensures
            r.x.m() == T::one_m(),
            r.y.m() == T::one_m(),
            r.z.m() == T::one_m(),
    {
        Vector3 { x: T::one(), y: T::one(), z: T::one() }
    }
}

impl<T: Scalar + Sqrt> Vector3<T> {
    pub fn length(self) -> (r: T)
        ensures
            r.m() == T::sqrt_m(dot3_m::<T>(self.models(), self.models())),
    {
        self.sqr_length().sqrt()
    }
}

impl<T: Scalar + Sqrt + Recip> Vector3<T> {
    /// The vector scaled by the reciprocal of its length.
    pub fn normalized(self) -> (r: Self)
        ensures
            ({
                let inv = T::recip_m(T::sqrt_m(dot3_m::<T>(self.models(), self.models())));
                r.x.m() == T::mul_m(self.x.m(), inv) && r.y.m() == T::mul_m(self.y.m(), inv)
                    && r.z.m() == T::mul_m(self.z.m(), inv)
            }),
    {
        self.mul(Vector3::splat(self.length().recip()))
    }
}

impl<T: Scalar + Two> Vector3<T> {
    /// Reflection about a normal: `self - 2 * dot(self, normal) * normal`.
    pub fn reflect(self, normal: Self) -> (r: Self)
        ensures
            ({
                let d = T::mul_m(T::two_m(), dot3_m::<T>(self.models(), normal.models()));
                r.x.m() == T::sub_m(self.x.m(), T::mul_m(d, normal.x.m())) && r.y.m()
                    == T::sub_m(self.y.m(), T::mul_m(d, normal.y.m())) && r.z.m()
                    == T::sub_m(self.z.m(), T::mul_m(d, normal.z.m()))
            }),
    {
        self.sub(Vector3::splat(T::two().mul(self.dot(normal))).mul(normal))
    }
}

} // verus!
