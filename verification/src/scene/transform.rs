use vstd::prelude::*;

use crate::math::{
    col_m, dot_t, mm_t, rotation_m, scale_m, translation_m, Cos, Matrix4x4, One, Scalar, Sin,
    ToRadians, Vector3, Vector4, Zero,
};

verus! {

/// A position, a rotation (Euler angles in degrees per axis) and a scale.
#[derive(Clone, Copy)]
pub struct Transform<T> {
    pub position: Vector3<T>,
    pub rotation: Vector3<T>,
    pub scale: Vector3<T>,
}

impl<T> Transform<T> {
    pub fn new(position: Vector3<T>, rotation: Vector3<T>, scale: Vector3<T>) -> (r: Self)
        ensures
            r.position == position,
            r.rotation == rotation,
            r.scale == scale,
    {
        Transform { position, rotation, scale }
    }
}

/// A basis vector carried through the rotation matrix of the given Euler
/// angles (the fourth, homogeneous component of the carried vector is one).
pub open spec fn rotated_dir_m<T: Scalar + One + ToRadians + Sin + Cos>(
    rotation: (int, int, int),
    axis: (int, int, int),
) -> (int, int, int) {
    let rm = rotation_m::<T>(rotation);
    let v = seq![axis.0, axis.1, axis.2, T::one_m()];
    (dot_t::<T>(col_m(rm, 0), v), dot_t::<T>(col_m(rm, 1), v), dot_t::<T>(col_m(rm, 2), v))
}

impl<T: Scalar + Zero + One + ToRadians + Sin + Cos> Transform<T> {
    /// The model of the composed matrix: scale, then the combined
    /// rotation, then translation — in that fixed order.
    pub open spec fn matrix_m(self) -> Seq<Seq<int>> {
        mm_t::<T>(
            mm_t::<T>(scale_m::<T>(self.scale.models()), rotation_m::<T>(self.rotation.models()), 4),
            translation_m::<T>(self.position.models()),
            4,
        )
    }

    /// The model matrix `scale * rotation * translation`.
    pub fn to_matrix(self) -> (r: Matrix4x4<T>)
        ensures
            r.wf(),
            r.view_m() == self.matrix_m(),
    {
        Matrix4x4::scale(self.scale).mul(Matrix4x4::rotation(self.rotation)).mul(
            Matrix4x4::translation(self.position),
        )
    }

    /// The unit z axis carried through this transform's rotation.
    pub fn forward(self) -> (r: Vector3<T>)
        ensures
            (r.x.m(), r.y.m(), r.z.m()) == rotated_dir_m::<T>(
                self.rotation.models(),
                (0int, 0int, T::one_m()),
            ),
    {
        let basis = Vector4::new(T::zero(), T::zero(), T::one(), T::one());
        let v = Matrix4x4::rotation(self.rotation).mul_vector(basis);
        proof {
            assert(seq![basis.x.m(), basis.y.m(), basis.z.m(), basis.w.m()] =~= seq![0int, 0int, T::one_m(), T::one_m()]);
        }
        Vector3::new(v.x, v.y, v.z)
    }

    /// The unit x axis carried through this transform's rotation.
    pub fn right(self) -> (r: Vector3<T>)
        ensures
            (r.x.m(), r.y.m(), r.z.m()) == rotated_dir_m::<T>(
                self.rotation.models(),
                (T::one_m(), 0int, 0int),
            ),
    {
        let basis = Vector4::new(T::one(), T::zero(), T::zero(), T::one());
        let v = Matrix4x4::rotation(self.rotation).mul_vector(basis);
        proof {
            assert(seq![basis.x.m(), basis.y.m(), basis.z.m(), basis.w.m()] =~= seq![T::one_m(), 0int, 0int, T::one_m()]);
        }
        Vector3::new(v.x, v.y, v.z)
    }

    /// The unit y axis carried through this transform's rotation.
    pub fn up(self) -> (r: Vector3<T>)
        ensures
            (r.x.m(), r.y.m(), r.z.m()) == rotated_dir_m::<T>(
                self.rotation.models(),
                (0int, T::one_m(), 0int),
            ),
    {
        let basis = Vector4::new(T::zero(), T::one(), T::zero(), T::one());
        let v = Matrix4x4::rotation(self.rotation).mul_vector(basis);
        proof {
            assert(seq![basis.x.m(), basis.y.m(), basis.z.m(), basis.w.m()] =~= seq![0int, T::one_m(), 0int, T::one_m()]);
        }
        Vector3::new(v.x, v.y, v.z)
    }
}

impl<T: Scalar + Zero + One> Default for Transform<T> {
    /// The identity transform: at the origin, unrotated, unit scale.
    fn default() -> (r: Self)
        ensures
            r.position.models() == (0int, 0int, 0int),
            r.rotation.models() == (0int, 0int, 0int),
            r.scale.models() == (T::one_m(), T::one_m(), T::one_m()),
    {
        Transform { position: Vector3::zero(), rotation: Vector3::zero(), scale: Vector3::one() }
    }
}

} // verus!
