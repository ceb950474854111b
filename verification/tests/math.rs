use thallium::math::{
    Cos, Fixed, Matrix, Matrix4x4, Recip, Scalar, Sin, Sqrt, Tan, ToDegrees, ToRadians, Vector2,
    Vector3, Vector4,
};

const ONE: i64 = 65536;

fn fx(v: i64) -> Fixed {
    Fixed::from_int(v)
}

#[test]
fn fixed_integer_constructors() {
    assert_eq!(fx(0).raw(), 0);
    assert_eq!(fx(1).raw(), ONE);
    assert_eq!(fx(-3).raw(), -3 * ONE);
    assert_eq!(Fixed::from_raw(12345).raw(), 12345);
    assert_eq!(Fixed::from_ratio(1, 2).raw(), ONE / 2);
    assert_eq!(Fixed::from_ratio(800, 600).raw(), 800 * ONE / 600);
    assert_eq!(Fixed::from_ratio(5, 0).raw(), 0);
}

#[test]
fn fixed_arithmetic_exact_values() {
    assert_eq!(fx(2).add(fx(3)).raw(), 5 * ONE);
    assert_eq!(fx(2).sub(fx(3)).raw(), -ONE);
    assert_eq!(fx(6).mul(fx(7)).raw(), 42 * ONE);
    assert_eq!(fx(-6).mul(fx(7)).raw(), -42 * ONE);
    assert_eq!(fx(7).div(fx(2)).raw(), 7 * ONE / 2);
    assert_eq!(fx(5).neg().raw(), -5 * ONE);
    // division by zero is total and yields zero
    assert_eq!(fx(3).div(fx(0)).raw(), 0);
}

#[test]
fn fixed_arithmetic_saturates() {
    let top = Fixed::from_raw(i64::MAX);
    let bottom = Fixed::from_raw(i64::MIN);
    assert_eq!(top.add(fx(1)).raw(), i64::MAX);
    assert_eq!(bottom.sub(fx(1)).raw(), i64::MIN);
    assert_eq!(top.mul(top).raw(), i64::MAX);
    assert_eq!(bottom.neg().raw(), i64::MAX);
    assert_eq!(Fixed::from_int(i64::MAX).raw(), i64::MAX);
}

#[test]
fn fixed_sqrt_values() {
    assert_eq!(fx(0).sqrt().raw(), 0);
    assert_eq!(fx(4).sqrt().raw(), 2 * ONE);
    assert_eq!(fx(9).sqrt().raw(), 3 * ONE);
    assert_eq!(fx(-4).sqrt().raw(), 0);
    // sqrt(2) in 48.16 units, truncated
    let s2 = fx(2).sqrt().raw();
    assert!((s2 - 92681).abs() <= 1, "sqrt(2) raw was {s2}");
}

#[test]
fn fixed_recip_values() {
    assert_eq!(fx(2).recip().raw(), ONE / 2);
    assert_eq!(fx(-4).recip().raw(), -ONE / 4);
    assert_eq!(fx(0).recip().raw(), 0);
}

#[test]
fn fixed_trig_exact_at_zero() {
    let zero_rad = fx(0).to_radians();
    assert_eq!(zero_rad.raw(), 0);
    assert_eq!(zero_rad.sin().raw(), 0);
    assert_eq!(zero_rad.cos().raw(), ONE);
}

#[test]
fn fixed_trig_approximations() {
    let sin90 = fx(90).to_radians().sin().raw();
    assert!((sin90 - ONE).abs() < 500, "sin 90deg raw was {sin90}");
    let cos180 = fx(180).to_radians().cos().raw();
    assert!((cos180 + ONE).abs() < 500, "cos 180deg raw was {cos180}");
    let sin_neg90 = fx(-90).to_radians().sin().raw();
    assert!((sin_neg90 + ONE).abs() < 500, "sin -90deg raw was {sin_neg90}");
    let tan45 = fx(45).to_radians().tan().raw();
    assert!((tan45 - ONE).abs() < 1000, "tan 45deg raw was {tan45}");
}

#[test]
fn fixed_degree_radian_round_trip() {
    let raw = fx(45).to_radians().to_degrees().raw();
    // two truncating conversions lose a few dozen raw units at most
    assert!((raw - 45 * ONE).abs() <= 64, "round trip raw was {raw}");
}

#[test]
fn saturating_i64_scalar() {
    assert_eq!(2i64.add(3), 5);
    assert_eq!(i64::MAX.add(1), i64::MAX);
    assert_eq!(i64::MIN.sub(1), i64::MIN);
    assert_eq!((1i64 << 62).mul(4), i64::MAX);
    assert_eq!((-7i64).div(2), -3);
    assert_eq!(7i64.div(-2), -3);
    assert_eq!(7i64.div(0), 0);
    assert_eq!(i64::MIN.neg(), i64::MAX);
}

#[test]
fn vector3_dot_cross_length() {
    let a: Vector3<i64> = Vector3::new(1, 2, 3);
    let b: Vector3<i64> = Vector3::new(4, 5, 6);
    assert_eq!(a.dot(b), 32);
    let c = a.cross(b);
    assert_eq!((c.x, c.y, c.z), (-3, 6, -3));
    let v: Vector3<Fixed> = Vector3::new(fx(3), fx(4), fx(0));
    assert_eq!(v.length().raw(), 5 * ONE);
    let n = v.normalized();
    // 3/5 and 4/5 within truncation error of the reciprocal
    assert!((n.x.raw() - 3 * ONE / 5).abs() <= 16);
    assert!((n.y.raw() - 4 * ONE / 5).abs() <= 16);
}

#[test]
fn vector_componentwise_ops() {
    let a: Vector4<i64> = Vector4::new(1, 2, 3, 4);
    let b: Vector4<i64> = Vector4::new(10, 20, 30, 40);
    let s = a.add(b);
    assert_eq!((s.x, s.y, s.z, s.w), (11, 22, 33, 44));
    let d = b.sub(a);
    assert_eq!((d.x, d.y, d.z, d.w), (9, 18, 27, 36));
    let p = a.mul(b);
    assert_eq!((p.x, p.y, p.z, p.w), (10, 40, 90, 160));
    let q = b.div(a);
    assert_eq!((q.x, q.y, q.z, q.w), (10, 10, 10, 10));
    let n = a.neg();
    assert_eq!((n.x, n.y, n.z, n.w), (-1, -2, -3, -4));
    let two: Vector2<i64> = Vector2::new(3, 4);
    assert_eq!(two.dot(two), 25);
    assert_eq!(two.sqr_length(), 25);
}

#[test]
fn vector_reflect() {
    // reflect (1, -1, 0) about the y axis normal: (1, 1, 0)
    let v: Vector3<i64> = Vector3::new(1, -1, 0);
    let n: Vector3<i64> = Vector3::new(0, 1, 0);
    let r = v.reflect(n);
    assert_eq!((r.x, r.y, r.z), (1, 1, 0));
}

#[test]
fn matrix_identity_is_left_identity() {
    let a: Matrix<i64, 3, 2> = Matrix::new(vec![vec![1, 2], vec![3, 4], vec![5, 6]]);
    let id: Matrix<i64, 3, 3> = Matrix::identity();
    let product = id.mul(a.duplicate());
    for i in 0..3 {
        for j in 0..2 {
            assert_eq!(product.entry(i, j), a.entry(i, j));
        }
    }
}

#[test]
fn matrix_multiplication_values() {
    let a: Matrix<i64, 2, 2> = Matrix::new(vec![vec![1, 2], vec![3, 4]]);
    let b: Matrix<i64, 2, 2> = Matrix::new(vec![vec![5, 6], vec![7, 8]]);
    let c = a.mul(b);
    assert_eq!(c.entry(0, 0), 19);
    assert_eq!(c.entry(0, 1), 22);
    assert_eq!(c.entry(1, 0), 43);
    assert_eq!(c.entry(1, 1), 50);
}

#[test]
fn matrix_multiplication_associates() {
    let a: Matrix<i64, 2, 3> = Matrix::new(vec![vec![1, 2, 3], vec![4, 5, 6]]);
    let b: Matrix<i64, 3, 2> = Matrix::new(vec![vec![7, 8], vec![9, 10], vec![11, 12]]);
    let c: Matrix<i64, 2, 2> = Matrix::new(vec![vec![13, 14], vec![15, 16]]);
    let left = a.duplicate().mul(b.duplicate()).mul(c.duplicate());
    let right = a.mul(b.mul(c));
    for i in 0..2 {
        for j in 0..2 {
            assert_eq!(left.entry(i, j), right.entry(i, j));
        }
    }
}

#[test]
fn matrix_transpose_values() {
    let a: Matrix<i64, 2, 3> = Matrix::new(vec![vec![1, 2, 3], vec![4, 5, 6]]);
    let t = a.transpose();
    for i in 0..3 {
        for j in 0..2 {
            assert_eq!(t.entry(i, j), a.entry(j, i));
        }
    }
}

#[test]
fn matrix_scale_translation_applied() {
    let scale: Matrix4x4<i64> = Matrix4x4::scale(Vector3::new(2, 3, 4));
    let scaled = scale.mul_vector(Vector4::new(1, 1, 1, 1));
    assert_eq!((scaled.x, scaled.y, scaled.z, scaled.w), (2, 3, 4, 1));
    let translation: Matrix4x4<i64> = Matrix4x4::translation(Vector3::new(7, 8, 9));
    let moved = translation.mul_vector(Vector4::new(0, 0, 0, 1));
    assert_eq!((moved.x, moved.y, moved.z, moved.w), (7, 8, 9, 1));
}

#[test]
fn matrix_rotation_zero_is_identity() {
    let rot: Matrix4x4<Fixed> = Matrix4x4::rotation(Vector3::new(fx(0), fx(0), fx(0)));
    for i in 0..4 {
        for j in 0..4 {
            let expected = if i == j { ONE } else { 0 };
            assert_eq!(rot.entry(i, j).raw(), expected, "entry ({i}, {j})");
        }
    }
}

#[test]
fn matrix_rotation_quarter_turn() {
    // carrying the x axis through a quarter turn about z: with the
    // layer's negated angle and row-vector convention, (1, 0, 0) lands
    // near (0, 1, 0)
    let rot: Matrix4x4<Fixed> = Matrix4x4::rotation_z(fx(90));
    let v = rot.mul_vector(Vector4::new(fx(1), fx(0), fx(0), fx(1)));
    assert!(v.x.raw().abs() < 500, "x raw was {}", v.x.raw());
    assert!((v.y.raw() - ONE).abs() < 500, "y raw was {}", v.y.raw());
    assert_eq!(v.z.raw(), 0);
}
