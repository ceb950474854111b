use vstd::prelude::*;

use crate::math::{
    col_m, dot_t, dot_t_prefix, ident_m, row4, sat64, tdiv, ExactScalar, Fixed, Matrix4x4, One,
    Recip, Scalar, Tan, ToRadians, Two, Vector2, Zero,
};
use crate::scene::Transform;

verus! {

/// How a camera projects the scene into normalized device coordinates.
#[derive(Clone, Copy)]
pub enum CameraProjectionType<T> {
    Identity,
    Orthographic { left: T, right: T, top: T, bottom: T, near: T, far: T },
    Perspective { fov: T, aspect: T, near: T, far: T },
}

/// The scale term of one orthographic axis: `2 / (hi - lo)`.
pub open spec fn ortho_scale_m<T: Scalar + Two>(lo: int, hi: int) -> int {
    T::div_m(T::two_m(), T::sub_m(hi, lo))
}

/// The translation term of one orthographic axis: `-(hi + lo) / (hi - lo)`.
pub open spec fn ortho_translate_m<T: Scalar>(lo: int, hi: int) -> int {
    T::div_m(T::neg_m(T::add_m(hi, lo)), T::sub_m(hi, lo))
}

/// The orthographic model matrix: a linear remap of each axis of the box
/// into `[-1, 1]`, with the translation terms in the last row.
pub open spec fn orthographic_m<T: Scalar + One + Two>(
    l: int,
    r: int,
    t: int,
    b: int,
    n: int,
    f: int,
) -> Seq<Seq<int>> {
    seq![
        seq![ortho_scale_m::<T>(l, r), 0, 0, 0],
        seq![0, ortho_scale_m::<T>(b, t), 0, 0],
        seq![0, 0, ortho_scale_m::<T>(n, f), 0],
        seq![
            ortho_translate_m::<T>(l, r),
            ortho_translate_m::<T>(b, t),
            ortho_translate_m::<T>(n, f),
            T::one_m(),
        ],
    ]
}

/// The perspective model matrix, with the classic right-handed depth
/// terms `-(f + n) / (f - n)` and `-2 f n / (f - n)` and `-1` in the
/// homogeneous slot (already transposed into the row-vector convention
/// the matrix-vector product uses).
pub open spec fn perspective_m<T: Scalar + One + Two + ToRadians + Tan + Recip>(
    fov: int,
    aspect: int,
    n: int,
    f: int,
) -> Seq<Seq<int>> {
    let tan_half = T::tan_m(T::div_m(T::to_radians_m(fov), T::two_m()));
    let sx = T::recip_m(T::mul_m(aspect, tan_half));
    let sy = T::recip_m(tan_half);
    let zz = T::div_m(T::neg_m(T::add_m(f, n)), T::sub_m(f, n));
    let zw = T::neg_m(T::div_m(T::mul_m(T::mul_m(T::two_m(), f), n), T::sub_m(f, n)));
    seq![
        seq![sx, 0, 0, 0],
        seq![0, sy, 0, 0],
        seq![0, 0, zz, T::neg_m(T::one_m())],
        seq![0, 0, zw, 0],
    ]
}

impl<T: Scalar + Zero + One + Two + ToRadians + Tan + Recip> CameraProjectionType<T> {
    /// The model of this projection's matrix.
    pub open spec fn projection_m(self) -> Seq<Seq<int>> {
        match self {
            CameraProjectionType::Identity => ident_m::<T>(4, 4),
            CameraProjectionType::Orthographic { left, right, top, bottom, near, far } =>
                orthographic_m::<T>(left.m(), right.m(), top.m(), bottom.m(), near.m(), far.m()),
            CameraProjectionType::Perspective { fov, aspect, near, far } => perspective_m::<T>(
                fov.m(),
                aspect.m(),
                near.m(),
                far.m(),
            ),
        }
    }

    /// The projection matrix, in the same row-vector convention as the
    /// transform matrices.
    pub fn to_matrix(self) -> (result: Matrix4x4<T>)
        ensures
            result.wf(),
            result.view_m() == self.projection_m(),
    {
        match self {
            CameraProjectionType::Identity => {
                let result = Matrix4x4::<T>::identity();
                result
            },
            CameraProjectionType::Orthographic { left, right, top, bottom, near, far } => {
                let sx = T::two().div(right.sub(left));
                let sy = T::two().div(top.sub(bottom));
                let sz = T::two().div(far.sub(near));
                let tx = right.add(left).neg().div(right.sub(left));
                let ty = top.add(bottom).neg().div(top.sub(bottom));
                let tz = far.add(near).neg().div(far.sub(near));
                let result = Matrix4x4::from_rows4(
                    row4(sx, T::zero(), T::zero(), T::zero()),
                    row4(T::zero(), sy, T::zero(), T::zero()),
                    row4(T::zero(), T::zero(), sz, T::zero()),
                    row4(tx, ty, tz, T::one()),
                );
                proof {
                    assert(result.view_m() =~~= orthographic_m::<T>(
                        left.m(),
                        right.m(),
                        top.m(),
                        bottom.m(),
                        near.m(),
                        far.m(),
                    ));
                }
                result
            },
            CameraProjectionType::Perspective { fov, aspect, near, far } => {
                let fov_radians = fov.to_radians();
                let tan_half = fov_radians.div(T::two()).tan();
                let sx = aspect.mul(tan_half).recip();
                let sy = tan_half.recip();
                let zz = far.add(near).neg().div(far.sub(near));
                let zw = T::two().mul(far).mul(near).div(far.sub(near)).neg();
                // built directly in the transposed (row-vector) layout
                let result = Matrix4x4::from_rows4(
                    row4(sx, T::zero(), T::zero(), T::zero()),
                    row4(T::zero(), sy, T::zero(), T::zero()),
                    row4(T::zero(), T::zero(), zz, T::one().neg()),
                    row4(T::zero(), T::zero(), zw, T::zero()),
                );
                proof {
                    assert(result.view_m() =~~= perspective_m::<T>(
                        fov.m(),
                        aspect.m(),
                        near.m(),
                        far.m(),
                    ));
                }
                result
            },
        }
    }
}

impl CameraProjectionType<Fixed> {
    /// Folds a new pixel size into the projection parameters, as a caller
    /// does on a resize event: a perspective camera takes the new aspect
    /// ratio; an orthographic camera re-derives its horizontal bounds
    /// from its vertical ones and the new aspect ratio; everything else
    /// (fov, near, far, top, bottom) is untouched.
    pub fn handle_resize(&mut self, size: Vector2<usize>)
        requires
            size.y as int > 0,
            size.x as int <= i64::MAX as int,
            size.y as int <= i64::MAX as int,
        ensures
            (*old(self) matches CameraProjectionType::<Fixed>::Identity) ==> *final(self) == *old(
                self,
            ),
            (*old(self) matches CameraProjectionType::Perspective { fov, aspect, near, far }
                ==> *final(self) matches CameraProjectionType::Perspective {
                fov: fov2,
                aspect: aspect2,
                near: near2,
                far: far2,
            } && fov2 == fov && near2 == near && far2 == far && aspect2.m() == sat64(
                tdiv(size.x as int * 65536, size.y as int),
            )),
            (*old(self) matches CameraProjectionType::Orthographic {
                left,
                right,
                top,
                bottom,
                near,
                far,
            } ==> *final(self) matches CameraProjectionType::Orthographic {
                left: left2,
                right: right2,
                top: top2,
                bottom: bottom2,
                near: near2,
                far: far2,
            } && top2 == top && bottom2 == bottom && near2 == near && far2 == far && ({
                let asp = sat64(tdiv(size.x as int * 65536, size.y as int));
                left2.m() == Fixed::neg_m(Fixed::mul_m(asp, bottom.m())) && right2.m()
                    == Fixed::mul_m(asp, top.m())
            })),
    {
        let aspect_ratio = Fixed::from_ratio(size.x as i64, size.y as i64);
        match *self {
            CameraProjectionType::Identity => {},
            CameraProjectionType::Orthographic { left, right, top, bottom, near, far } => {
                *self = CameraProjectionType::Orthographic {
                    left: aspect_ratio.mul(bottom).neg(),
                    right: aspect_ratio.mul(top),
                    top,
                    bottom,
                    near,
                    far,
                };
            },
            CameraProjectionType::Perspective { fov, aspect, near, far } => {
                *self = CameraProjectionType::Perspective { fov, aspect: aspect_ratio, near, far };
            },
        }
    }
}

/// Evaluates the four-term dot-product fold over an exact scalar, given
/// that every product and partial sum stays representable.
proof fn lemma_dot4_exact<T: ExactScalar>(c: Seq<int>, v: Seq<int>)
    requires
        c.len() == 4,
        v.len() == 4,
        T::in_range(c[0] * v[0]),
        T::in_range(c[1] * v[1]),
        T::in_range(c[2] * v[2]),
        T::in_range(c[3] * v[3]),
        T::in_range(c[0] * v[0] + c[1] * v[1]),
        T::in_range(c[0] * v[0] + c[1] * v[1] + c[2] * v[2]),
        T::in_range(c[0] * v[0] + c[1] * v[1] + c[2] * v[2] + c[3] * v[3]),
    ensures
        dot_t::<T>(c, v) == c[0] * v[0] + c[1] * v[1] + c[2] * v[2] + c[3] * v[3],
{
    T::lemma_exact_mul(c[0], v[0]);
    T::lemma_exact_mul(c[1], v[1]);
    T::lemma_exact_mul(c[2], v[2]);
    T::lemma_exact_mul(c[3], v[3]);
    T::lemma_exact_add(0, c[0] * v[0]);
    T::lemma_exact_add(c[0] * v[0], c[1] * v[1]);
    T::lemma_exact_add(c[0] * v[0] + c[1] * v[1], c[2] * v[2]);
    T::lemma_exact_add(c[0] * v[0] + c[1] * v[1] + c[2] * v[2], c[3] * v[3]);
    assert(dot_t_prefix::<T>(c, v, 0) == 0);
    assert(dot_t_prefix::<T>(c, v, 1) == c[0] * v[0]);
    assert(dot_t_prefix::<T>(c, v, 2) == c[0] * v[0] + c[1] * v[1]);
    assert(dot_t_prefix::<T>(c, v, 3) == c[0] * v[0] + c[1] * v[1] + c[2] * v[2]);
    assert(dot_t_prefix::<T>(c, v, 4) == c[0] * v[0] + c[1] * v[1] + c[2] * v[2] + c[3] * v[3]);
}

/// Where the two divisions of one orthographic axis are exact, the remap
/// sends the ends of the box to the ends of the unit interval.
proof fn lemma_ortho_axis_cancel(lo: int, hi: int, scale: int, translate: int)
    requires
        hi - lo != 0,
        scale * (hi - lo) == 2,
        translate * (hi - lo) == -(hi + lo),
    ensures
        scale * lo + translate == -1,
        scale * hi + translate == 1,
{
    assert(scale * lo + translate == -1 && scale * hi + translate == 1) by (nonlinear_arith)
        requires
            hi - lo != 0,
            scale * (hi - lo) == 2,
            translate * (hi - lo) == -(hi + lo),
    ;
}

/// The orthographic projection maps the corners of its box to the
/// corners of the normalized cube: the point `(left, bottom, near)` goes
/// to `(-1, -1, -1)` and `(right, top, far)` to `(1, 1, 1)` (homogeneous
/// component one), for every exact scalar on which the six division
/// terms come out exact and the intermediate products are representable.
/// Over a bounded or inexact scalar (saturation, or a remainder in one
/// of the divisions) the corners land only near the cube, which is why
/// those inputs are left out here.
pub proof fn lemma_orthographic_corners<T: ExactScalar>(l: int, r: int, t: int, b: int, n: int, f: int)
    requires
        T::in_range(0) && T::in_range(1) && T::in_range(-1),
        r - l != 0,
        t - b != 0,
        f - n != 0,
        ortho_scale_m::<T>(l, r) * (r - l) == 2,
        ortho_scale_m::<T>(b, t) * (t - b) == 2,
        ortho_scale_m::<T>(n, f) * (f - n) == 2,
        ortho_translate_m::<T>(l, r) * (r - l) == -(r + l),
        ortho_translate_m::<T>(b, t) * (t - b) == -(t + b),
        ortho_translate_m::<T>(n, f) * (f - n) == -(f + n),
        T::in_range(ortho_scale_m::<T>(l, r) * l),
        T::in_range(ortho_scale_m::<T>(l, r) * r),
        T::in_range(ortho_scale_m::<T>(b, t) * b),
        T::in_range(ortho_scale_m::<T>(b, t) * t),
        T::in_range(ortho_scale_m::<T>(n, f) * n),
        T::in_range(ortho_scale_m::<T>(n, f) * f),
    ensures
        ({
            let om = orthographic_m::<T>(l, r, t, b, n, f);
            let near_corner = seq![l, b, n, 1int];
            let far_corner = seq![r, t, f, 1int];
            &&& dot_t::<T>(col_m(om, 0), near_corner) == -1
            &&& dot_t::<T>(col_m(om, 1), near_corner) == -1
            &&& dot_t::<T>(col_m(om, 2), near_corner) == -1
            &&& dot_t::<T>(col_m(om, 3), near_corner) == 1
            &&& dot_t::<T>(col_m(om, 0), far_corner) == 1
            &&& dot_t::<T>(col_m(om, 1), far_corner) == 1
            &&& dot_t::<T>(col_m(om, 2), far_corner) == 1
            &&& dot_t::<T>(col_m(om, 3), far_corner) == 1
        }),
{
    T::lemma_exact_units();
    let om = orthographic_m::<T>(l, r, t, b, n, f);
    let near_corner = seq![l, b, n, 1int];
    let far_corner = seq![r, t, f, 1int];
    let sx = ortho_scale_m::<T>(l, r);
    let sy = ortho_scale_m::<T>(b, t);
    let sz = ortho_scale_m::<T>(n, f);
    let tx = ortho_translate_m::<T>(l, r);
    let ty = ortho_translate_m::<T>(b, t);
    let tz = ortho_translate_m::<T>(n, f);
    T::lemma_ops_in_range(T::neg_m(T::add_m(r, l)), T::sub_m(r, l));
    T::lemma_ops_in_range(T::neg_m(T::add_m(t, b)), T::sub_m(t, b));
    T::lemma_ops_in_range(T::neg_m(T::add_m(f, n)), T::sub_m(f, n));
    lemma_ortho_axis_cancel(l, r, sx, tx);
    lemma_ortho_axis_cancel(b, t, sy, ty);
    lemma_ortho_axis_cancel(n, f, sz, tz);
    assert(col_m(om, 0) =~= seq![sx, 0, 0, tx]);
    assert(col_m(om, 1) =~= seq![0, sy, 0, ty]);
    assert(col_m(om, 2) =~= seq![0, 0, sz, tz]);
    assert(col_m(om, 3) =~= seq![0, 0, 0, 1int]);
    lemma_dot4_exact::<T>(col_m(om, 0), near_corner);
    lemma_dot4_exact::<T>(col_m(om, 1), near_corner);
    lemma_dot4_exact::<T>(col_m(om, 2), near_corner);
    lemma_dot4_exact::<T>(col_m(om, 3), near_corner);
    lemma_dot4_exact::<T>(col_m(om, 0), far_corner);
    lemma_dot4_exact::<T>(col_m(om, 1), far_corner);
    lemma_dot4_exact::<T>(col_m(om, 2), far_corner);
    lemma_dot4_exact::<T>(col_m(om, 3), far_corner);
}

/// A point of view: a transform and a projection.
#[derive(Clone, Copy)]
pub struct Camera<T> {
    pub transform: Transform<T>,
    pub projection_type: CameraProjectionType<T>,
}

impl<T: Scalar + Zero + One> Default for Camera<T> {
    /// The identity transform with no projection.
    fn default() -> (r: Self)
        ensures
            r.transform.position.models() == (0int, 0int, 0int),
            r.transform.rotation.models() == (0int, 0int, 0int),
            r.transform.scale.models() == (T::one_m(), T::one_m(), T::one_m()),
            r.projection_type matches CameraProjectionType::<T>::Identity,
    {
        Camera { transform: Transform::default(), projection_type: CameraProjectionType::Identity }
    }
}

} // verus!
