use thallium::math::{Fixed, Vector2, Vector3, Vector4};
use thallium::scene::{Camera, CameraProjectionType, Transform};

const ONE: i64 = 65536;

fn fx(v: i64) -> Fixed {
    Fixed::from_int(v)
}

fn apply(m: thallium::math::Matrix4x4<Fixed>, x: i64, y: i64, z: i64) -> (i64, i64, i64, i64) {
    let v = m.mul_vector(Vector4::new(fx(x), fx(y), fx(z), fx(1)));
    (v.x.raw(), v.y.raw(), v.z.raw(), v.w.raw())
}

#[test]
fn transform_composition_order() {
    // scale-then-translate along an axis untouched by rotation: the
    // origin only picks up the translation, a local point (1, 0, 0)
    // is first scaled by 2 and then moved by 1
    let transform: Transform<Fixed> = Transform::new(
        Vector3::new(fx(1), fx(0), fx(0)),
        Vector3::new(fx(0), fx(0), fx(0)),
        Vector3::new(fx(2), fx(1), fx(1)),
    );
    let m = transform.to_matrix();
    assert_eq!(apply(m, 0, 0, 0), (ONE, 0, 0, ONE));
    let m = transform.to_matrix();
    assert_eq!(apply(m, 1, 0, 0), (3 * ONE, 0, 0, ONE));
}

#[test]
fn transform_directions_at_rest() {
    let transform: Transform<Fixed> = Transform::new(
        Vector3::new(fx(5), fx(6), fx(7)),
        Vector3::new(fx(0), fx(0), fx(0)),
        Vector3::new(fx(1), fx(1), fx(1)),
    );
    let f = transform.forward();
    assert_eq!((f.x.raw(), f.y.raw(), f.z.raw()), (0, 0, ONE));
    let r = transform.right();
    assert_eq!((r.x.raw(), r.y.raw(), r.z.raw()), (ONE, 0, 0));
    let u = transform.up();
    assert_eq!((u.x.raw(), u.y.raw(), u.z.raw()), (0, ONE, 0));
}

#[test]
fn identity_projection_matrix() {
    let projection: CameraProjectionType<Fixed> = CameraProjectionType::Identity;
    let m = projection.to_matrix();
    for i in 0..4 {
        for j in 0..4 {
            assert_eq!(m.entry(i, j).raw(), if i == j { ONE } else { 0 });
        }
    }
}

#[test]
fn orthographic_round_trip() {
    // a symmetric unit box: all six divisions are exact, so the corners
    // land exactly on the corners of the normalized cube
    let projection: CameraProjectionType<Fixed> = CameraProjectionType::Orthographic {
        left: fx(-1),
        right: fx(1),
        top: fx(1),
        bottom: fx(-1),
        near: fx(-1),
        far: fx(1),
    };
    let m = projection.to_matrix();
    assert_eq!(apply(m, -1, -1, -1), (-ONE, -ONE, -ONE, ONE));
    let m = projection.to_matrix();
    assert_eq!(apply(m, 1, 1, 1), (ONE, ONE, ONE, ONE));
}

#[test]
fn orthographic_round_trip_off_center() {
    // box x in [2, 6], y in [-4, 0], z in [10, 14]: every width is a
    // power of two, so the divisions are exact in fixed point
    let projection: CameraProjectionType<Fixed> = CameraProjectionType::Orthographic {
        left: fx(2),
        right: fx(6),
        top: fx(0),
        bottom: fx(-4),
        near: fx(10),
        far: fx(14),
    };
    let m = projection.to_matrix();
    assert_eq!(apply(m, 2, -4, 10), (-ONE, -ONE, -ONE, ONE));
    let m = projection.to_matrix();
    assert_eq!(apply(m, 6, 0, 14), (ONE, ONE, ONE, ONE));
}

#[test]
fn perspective_matrix_shape() {
    let projection: CameraProjectionType<Fixed> = CameraProjectionType::Perspective {
        fov: fx(90),
        aspect: fx(1),
        near: fx(1),
        far: fx(3),
    };
    let m = projection.to_matrix();
    // tan(45 degrees) is about one, so both scale terms are near one
    assert!((m.entry(0, 0).raw() - ONE).abs() < 2000, "sx raw {}", m.entry(0, 0).raw());
    assert!((m.entry(1, 1).raw() - ONE).abs() < 2000, "sy raw {}", m.entry(1, 1).raw());
    // -(far + near) / (far - near) == -2 exactly
    assert_eq!(m.entry(2, 2).raw(), -2 * ONE);
    // the transposed homogeneous term is -1
    assert_eq!(m.entry(2, 3).raw(), -ONE);
    // -(2 * far * near) / (far - near) == -3 exactly
    assert_eq!(m.entry(3, 2).raw(), -3 * ONE);
    assert_eq!(m.entry(3, 3).raw(), 0);
}

#[test]
fn perspective_aspect_updates_on_resize() {
    let mut projection: CameraProjectionType<Fixed> = CameraProjectionType::Perspective {
        fov: fx(60),
        aspect: fx(1),
        near: fx(1),
        far: fx(1000),
    };
    projection.handle_resize(Vector2::new(800, 600));
    match projection {
        CameraProjectionType::Perspective { fov, aspect, near, far } => {
            assert_eq!(aspect.raw(), 800 * ONE / 600);
            assert_eq!(fov.raw(), 60 * ONE);
            assert_eq!(near.raw(), ONE);
            assert_eq!(far.raw(), 1000 * ONE);
        },
        _ => panic!("projection changed variant"),
    }
}

#[test]
fn orthographic_bounds_update_on_resize() {
    let mut projection: CameraProjectionType<Fixed> = CameraProjectionType::Orthographic {
        left: fx(-1),
        right: fx(1),
        top: fx(3),
        bottom: fx(-3),
        near: fx(0),
        far: fx(1),
    };
    projection.handle_resize(Vector2::new(200, 100));
    match projection {
        CameraProjectionType::Orthographic { left, right, top, bottom, near, far } => {
            // aspect is exactly 2: left = -2 * bottom, right = 2 * top
            assert_eq!(left.raw(), 6 * ONE);
            assert_eq!(right.raw(), 6 * ONE);
            assert_eq!(top.raw(), 3 * ONE);
            assert_eq!(bottom.raw(), -3 * ONE);
            assert_eq!(near.raw(), 0);
            assert_eq!(far.raw(), ONE);
        },
        _ => panic!("projection changed variant"),
    }
}

#[test]
fn identity_resize_is_no_op() {
    let mut projection: CameraProjectionType<Fixed> = CameraProjectionType::Identity;
    projection.handle_resize(Vector2::new(640, 480));
    assert!(matches!(projection, CameraProjectionType::Identity));
}

#[test]
fn default_camera() {
    let camera: Camera<Fixed> = Default::default();
    assert_eq!(camera.transform.position.x.raw(), 0);
    assert_eq!(camera.transform.scale.y.raw(), ONE);
    assert!(matches!(camera.projection_type, CameraProjectionType::Identity));
}
