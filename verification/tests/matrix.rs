// Matrix construction, multiplication, chains and point transforms.
// All scalars are fixed-point: 10000 is one unit.

use affine3d::fixed::ONE;
use affine3d::linalg::{
    Matrix4, Vector3, mat4_ident, mat4_mul, mat4_vec_mul, mat4_translate, mat4_scale,
    mat4_mul_vec3, mat4_mul_dir3, mat4_rotate,
};
use affine3d::trig::Angle;

fn m4(r: [[i64; 4]; 4]) -> Matrix4 {
    Matrix4 {
        m00: r[0][0], m01: r[0][1], m02: r[0][2], m03: r[0][3],
        m10: r[1][0], m11: r[1][1], m12: r[1][2], m13: r[1][3],
        m20: r[2][0], m21: r[2][1], m22: r[2][2], m23: r[2][3],
        m30: r[3][0], m31: r[3][1], m32: r[3][2], m33: r[3][3],
    }
}

fn v3(x: i64, y: i64, z: i64) -> Vector3 {
    Vector3 { x, y, z }
}

#[test]
fn lib_test_mat4_ident() {
    assert_eq!(
        mat4_ident(),
        m4([
            [10000, 0, 0, 0],
            [0, 10000, 0, 0],
            [0, 0, 10000, 0],
            [0, 0, 0, 10000],
        ])
    );
}

#[test]
fn test_test_mat4_ident() {
    assert_eq!(
        mat4_ident(),
        m4([
            [10000, 0, 0, 0],
            [0, 10000, 0, 0],
            [0, 0, 10000, 0],
            [0, 0, 0, 10000],
        ])
    );
}

#[test]
fn lib_test_mat4_mul() {
    let a = mat4_ident();
    let b = mat4_ident();

    let prod = mat4_mul(a, b);

    assert_eq!(a, prod);

    let a = m4([
        [0, 10000, 0, 0],
        [10000, 0, 0, 0],
        [0, 0, 10000, 0],
        [0, 0, 0, 10000],
    ]);

    let b = m4([
        [10000, 0, 0, 10000],
        [0, 10000, 0, 10000],
        [0, 0, 10000, 10000],
        [0, 0, 0, 10000],
    ]);

    let prod = mat4_mul(a, b);

    let expected = m4([
        [0, 10000, 0, 10000],
        [10000, 0, 0, 10000],
        [0, 0, 10000, 10000],
        [0, 0, 0, 10000],
    ]);

    assert_eq!(prod, expected);
}

#[test]
fn test_test_mat4_mul() {
    let a = mat4_ident();
    let b = mat4_ident();

    let prod = mat4_mul(a, b);

    assert_eq!(a, prod);
}

#[test]
fn test_mat4_mul_vec3() {
    let mat = mat4_rotate(Angle::Deg(90 * ONE), v3(0, 10000, 0)).unwrap();

    let cases = [
        [v3(10000, 0, 0), v3(0, 0, 10000)],
        [v3(0, 0, 10000), v3(-10000, 0, 0)],
        [v3(-10000, 0, 0), v3(0, 0, -10000)],
        [v3(0, 0, -10000), v3(10000, 0, 0)],
        [v3(5000, 0, 0), v3(0, 0, 5000)],
    ];

    for case in cases.iter() {
        let prod = mat4_mul_vec3(mat, case[0]);
        assert_eq!(prod, case[1]);
    }

    let mat = mat4_rotate(Angle::Deg(90 * ONE), v3(10000, 0, 0)).unwrap();

    let cases = [
        [v3(0, 10000, 0), v3(0, 0, -10000)],
        [v3(0, -10000, 0), v3(0, 0, 10000)],
    ];

    for case in cases.iter() {
        let prod = mat4_mul_vec3(mat, case[0]);
        assert_eq!(prod, case[1]);
    }
}

#[test]
fn test_mat4_translate() {
    let cases = [
        v3(0, 0, 0),
        v3(10000, 20000, 30000),
        v3(-5000, 7500, -125),
        v3(1, -1, 999999),
    ];
    for t in cases.iter() {
        assert_eq!(
            mat4_translate(*t),
            m4([
                [10000, 0, 0, 0],
                [0, 10000, 0, 0],
                [0, 0, 10000, 0],
                [t.x, t.y, t.z, 10000],
            ])
        );
    }
}

#[test]
fn test_translate_moves_point() {
    let t = v3(10000, -20000, 5);
    let p = v3(-123, 456, 78901);
    let moved = mat4_mul_vec3(mat4_translate(t), p);
    assert_eq!(moved, v3(p.x + t.x, p.y + t.y, p.z + t.z));

    let origin = v3(0, 0, 0);
    assert_eq!(mat4_mul_vec3(mat4_translate(t), origin), t);
}

#[test]
fn test_scale_unit_is_identity() {
    assert_eq!(mat4_scale(v3(10000, 10000, 10000)), mat4_ident());
}

#[test]
fn test_scale_diagonal() {
    let s = mat4_scale(v3(20000, 5000, -10000));
    assert_eq!(
        s,
        m4([
            [20000, 0, 0, 0],
            [0, 5000, 0, 0],
            [0, 0, -10000, 0],
            [0, 0, 0, 10000],
        ])
    );
    assert_eq!(mat4_mul_vec3(s, v3(10000, 10000, 10000)), v3(20000, 5000, -10000));
}

#[test]
fn test_mul_identity_neutral() {
    let m = m4([
        [3333, -271, 9999, 42],
        [0, 12345, -8000, 7],
        [250, 1, -1, 100000],
        [-40000, 55, 123, 10000],
    ]);
    assert_eq!(mat4_mul(mat4_ident(), m), m);
    assert_eq!(mat4_mul(m, mat4_ident()), m);
}

#[test]
fn test_mul_associative_within_tolerance() {
    // The exact product is associative; the computed one rounds each
    // entry once per multiply, so the two orders agree to a few quanta.
    let a = m4([
        [3333, 1250, -777, 0],
        [100, 9999, 5, -3333],
        [0, 42, 8750, 2500],
        [1111, -2222, 3333, 10000],
    ]);
    let b = m4([
        [7071, -7071, 0, 0],
        [7071, 7071, 0, 0],
        [0, 0, 10000, 0],
        [500, -500, 250, 10000],
    ]);
    let c = m4([
        [10000, 0, 0, 0],
        [0, 8660, -5000, 0],
        [0, 5000, 8660, 0],
        [-1000, 2000, -3000, 10000],
    ]);
    let left = mat4_mul(mat4_mul(a, b), c);
    let right = mat4_mul(a, mat4_mul(b, c));
    let l = [
        left.m00, left.m01, left.m02, left.m03, left.m10, left.m11, left.m12, left.m13,
        left.m20, left.m21, left.m22, left.m23, left.m30, left.m31, left.m32, left.m33,
    ];
    let r = [
        right.m00, right.m01, right.m02, right.m03, right.m10, right.m11, right.m12, right.m13,
        right.m20, right.m21, right.m22, right.m23, right.m30, right.m31, right.m32, right.m33,
    ];
    for i in 0..16 {
        assert!((l[i] - r[i]).abs() <= 10, "entry {}: {} vs {}", i, l[i], r[i]);
    }
}

#[test]
fn test_chain_empty_is_identity() {
    assert_eq!(mat4_vec_mul(vec![]), mat4_ident());
}

#[test]
fn test_chain_single() {
    let t = mat4_translate(v3(100, 200, 300));
    assert_eq!(mat4_vec_mul(vec![t]), t);
}

#[test]
fn test_chain_order() {
    // The first matrix of the list acts on a point first: translate by
    // one unit in x, then scale by two, so (1, 1, 1) lands on (4, 2, 2).
    let chained = mat4_vec_mul(vec![
        mat4_translate(v3(10000, 0, 0)),
        mat4_scale(v3(20000, 20000, 20000)),
    ]);
    let p = mat4_mul_vec3(chained, v3(10000, 10000, 10000));
    assert_eq!(p, v3(40000, 20000, 20000));

    // The reverse order scales first, then translates: (3, 2, 2).
    let reversed = mat4_vec_mul(vec![
        mat4_scale(v3(20000, 20000, 20000)),
        mat4_translate(v3(10000, 0, 0)),
    ]);
    let q = mat4_mul_vec3(reversed, v3(10000, 10000, 10000));
    assert_eq!(q, v3(30000, 20000, 20000));
}

#[test]
fn test_chain_matches_manual_fold() {
    let mats = vec![
        mat4_translate(v3(-5000, -5000, -5000)),
        mat4_rotate(Angle::Deg(90 * ONE), v3(0, 10000, 0)).unwrap(),
        mat4_rotate(Angle::Deg(45 * ONE), v3(10000, 0, 0)).unwrap(),
        mat4_scale(v3(5000, 5000, 5000)),
    ];
    let mut folded = mat4_ident();
    for m in mats.iter() {
        folded = mat4_mul(folded, *m);
    }
    assert_eq!(mat4_vec_mul(mats), folded);
}

#[test]
fn test_mat4_mul_dir3_ignores_translation() {
    let t = mat4_translate(v3(77777, -3, 12));
    let d = v3(10000, 20000, 30000);
    assert_eq!(mat4_mul_dir3(t, d), d);
    assert_eq!(mat4_mul_vec3(t, d), v3(10000 + 77777, 20000 - 3, 30000 + 12));

    let s = mat4_scale(v3(20000, 20000, 20000));
    assert_eq!(mat4_mul_dir3(s, d), v3(20000, 40000, 60000));
}
