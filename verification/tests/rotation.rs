// Axis-angle rotation: canonical and general axes, angle units, and the
// documented failure policy. All scalars are fixed-point: 10000 is one
// unit.

use affine3d::fixed::ONE;
use affine3d::linalg::{
    Vector3, LinalgError, mat4_ident, mat4_rotate, mat4_mul_vec3,
};
use affine3d::trig::{Angle, angle_sin_cos};

fn v3(x: i64, y: i64, z: i64) -> Vector3 {
    Vector3 { x, y, z }
}

#[test]
fn test_sin_cos_cardinal() {
    assert_eq!(angle_sin_cos(Angle::Deg(0)), (0, 10000));
    assert_eq!(angle_sin_cos(Angle::Deg(90 * ONE)), (10000, 0));
    assert_eq!(angle_sin_cos(Angle::Deg(180 * ONE)), (0, -10000));
    assert_eq!(angle_sin_cos(Angle::Deg(270 * ONE)), (-10000, 0));
    assert_eq!(angle_sin_cos(Angle::Deg(360 * ONE)), (0, 10000));
    assert_eq!(angle_sin_cos(Angle::Deg(-90 * ONE)), (-10000, 0));
}

#[test]
fn test_sin_cos_mid_angle() {
    // Bhaskara's approximation at 45 degrees: about 0.7059 for both,
    // against a true value of about 0.7071.
    assert_eq!(angle_sin_cos(Angle::Deg(45 * ONE)), (7058, 7058));
}

#[test]
fn test_rotate_full_turn_is_identity() {
    let axes = [
        v3(10000, 0, 0),
        v3(0, 10000, 0),
        v3(0, 0, 10000),
        v3(10000, 10000, 10000),
        v3(3000, 4000, 0),
        v3(-2500, 123, 99999),
        // The largest component the library accepts.
        v3(1000000000, 0, 0),
    ];
    for axis in axes.iter() {
        assert_eq!(mat4_rotate(Angle::Deg(360 * ONE), *axis).unwrap(), mat4_ident());
        assert_eq!(mat4_rotate(Angle::Deg(0), *axis).unwrap(), mat4_ident());
    }
}

#[test]
fn test_rotate_four_quarter_turns_restore_point() {
    let mat = mat4_rotate(Angle::Deg(90 * ONE), v3(0, 10000, 0)).unwrap();
    let start = v3(1234, 5678, -333);
    let mut p = start;
    for _ in 0..4 {
        p = mat4_mul_vec3(mat, p);
    }
    assert_eq!(p, start);
}

#[test]
fn test_rotate_non_unit_canonical_direction() {
    // A direction along an axis but of length two is not canonical
    // within tolerance; it is normalized and runs through the general
    // formula, landing exactly on the canonical matrix.
    let general = mat4_rotate(Angle::Deg(90 * ONE), v3(0, 20000, 0)).unwrap();
    let canonical = mat4_rotate(Angle::Deg(90 * ONE), v3(0, 10000, 0)).unwrap();
    assert_eq!(general, canonical);
}

#[test]
fn test_rotate_diagonal_axis_half_turn() {
    // 180 degrees about the normalized (1, 1, 1): exact sine 0 and
    // cosine -1, so each cell is 2 n_i n_j - 1 with n_i about 0.5773.
    let m = mat4_rotate(Angle::Deg(180 * ONE), v3(10000, 10000, 10000)).unwrap();
    // The matrix must be symmetric and fix the axis direction itself to
    // within rounding.
    assert_eq!(m.m01, m.m10);
    assert_eq!(m.m02, m.m20);
    assert_eq!(m.m12, m.m21);
    let p = mat4_mul_vec3(m, v3(10000, 10000, 10000));
    assert!((p.x - 10000).abs() <= 20, "{:?}", p);
    assert!((p.y - 10000).abs() <= 20, "{:?}", p);
    assert!((p.z - 10000).abs() <= 20, "{:?}", p);
    // A vector orthogonal to the axis flips, within rounding.
    let q = mat4_mul_vec3(m, v3(10000, -10000, 0));
    assert!((q.x + 10000).abs() <= 20, "{:?}", q);
    assert!((q.y - 10000).abs() <= 20, "{:?}", q);
    assert!(q.z.abs() <= 20, "{:?}", q);
}

#[test]
fn test_rotate_radians() {
    // A quarter turn given in radians: 1.5708 converts to 90.0002
    // degrees, one quantum short of the exact quarter-turn sine.
    let mat = mat4_rotate(Angle::Rad(15708), v3(0, 10000, 0)).unwrap();
    let p = mat4_mul_vec3(mat, v3(10000, 0, 0));
    assert!(p.x.abs() <= 2, "{:?}", p);
    assert_eq!(p.y, 0);
    assert!((p.z - 10000).abs() <= 2, "{:?}", p);
}

#[test]
fn test_rotate_zero_axis_is_rejected() {
    assert_eq!(
        mat4_rotate(Angle::Deg(90 * ONE), v3(0, 0, 0)),
        Err(LinalgError::InvalidAxis)
    );
    // Within a thousandth of a unit of zero length: still rejected.
    assert_eq!(
        mat4_rotate(Angle::Deg(90 * ONE), v3(5, 5, 5)),
        Err(LinalgError::InvalidAxis)
    );
    // Just at the threshold: accepted.
    assert!(mat4_rotate(Angle::Deg(90 * ONE), v3(10, 0, 0)).is_ok());
}

#[test]
fn test_rotate_out_of_range_is_rejected() {
    assert_eq!(
        mat4_rotate(Angle::Deg(90 * ONE), v3(2000000000, 0, 0)),
        Err(LinalgError::NonFiniteInput)
    );
    assert_eq!(
        mat4_rotate(Angle::Deg(2000000000), v3(0, 10000, 0)),
        Err(LinalgError::NonFiniteInput)
    );
    assert_eq!(
        mat4_rotate(Angle::Rad(-2000000000), v3(0, 10000, 0)),
        Err(LinalgError::NonFiniteInput)
    );
    // One past the boundary is rejected; the boundary itself is not.
    assert_eq!(
        mat4_rotate(Angle::Deg(90 * ONE), v3(1000000001, 0, 0)),
        Err(LinalgError::NonFiniteInput)
    );
    assert!(mat4_rotate(Angle::Deg(90 * ONE), v3(1000000000, 0, 0)).is_ok());
}
