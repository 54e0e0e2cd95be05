//! The mathematical model of the library's values: vectors and matrices
//! with unbounded integer entries, and the spec-level meaning of every
//! operation. Executable functions promise in their contracts to compute
//! exactly these models.

use vstd::prelude::*;
use crate::fixed::{ONE, ONE_SQ, tdiv, sqrt_floor};

verus! {

/// A vector of three fixed-point components, as unbounded integers.
pub ghost struct Vec3Model {
    pub x: int,
    pub y: int,
    pub z: int,
}

/// A 4x4 matrix of fixed-point entries, as unbounded integers.
/// `eij` is the entry in row `i`, column `j`.
pub ghost struct Mat4Model {
    pub e00: int,
    pub e01: int,
    pub e02: int,
    pub e03: int,
    pub e10: int,
    pub e11: int,
    pub e12: int,
    pub e13: int,
    pub e20: int,
    pub e21: int,
    pub e22: int,
    pub e23: int,
    pub e30: int,
    pub e31: int,
    pub e32: int,
    pub e33: int,
}

/// The magnitude of an integer.
pub open spec fn mag(x: int) -> int {
    if x < 0 {
        -x
    } else {
        x
    }
}

/// The four-term dot product, before any rescaling.
pub open spec fn dot4_model(
    a0: int,
    a1: int,
    a2: int,
    a3: int,
    b0: int,
    b1: int,
    b2: int,
    b3: int,
) -> int {
    a0 * b0 + a1 * b1 + a2 * b2 + a3 * b3
}

/// The identity matrix.
pub open spec fn ident_model() -> Mat4Model {
    Mat4Model {
        e00: ONE as int, e01: 0, e02: 0, e03: 0,
        e10: 0, e11: ONE as int, e12: 0, e13: 0,
        e20: 0, e21: 0, e22: ONE as int, e23: 0,
        e30: 0, e31: 0, e32: 0, e33: ONE as int,
    }
}

/// The translation matrix: identity with the offset in the last row,
/// as the row-vector convention requires.
pub open spec fn translate_model(v: Vec3Model) -> Mat4Model {
    Mat4Model {
        e00: ONE as int, e01: 0, e02: 0, e03: 0,
        e10: 0, e11: ONE as int, e12: 0, e13: 0,
        e20: 0, e21: 0, e22: ONE as int, e23: 0,
        e30: v.x, e31: v.y, e32: v.z, e33: ONE as int,
    }
}

/// The scale matrix: the factors on the diagonal.
pub open spec fn scale_model(v: Vec3Model) -> Mat4Model {
    Mat4Model {
        e00: v.x, e01: 0, e02: 0, e03: 0,
        e10: 0, e11: v.y, e12: 0, e13: 0,
        e20: 0, e21: 0, e22: v.z, e23: 0,
        e30: 0, e31: 0, e32: 0, e33: ONE as int,
    }
}

/// The exact matrix product, with no rescaling: entry `(i, j)` is the dot
/// product of row `i` of `a` with column `j` of `b`. Its entries carry an
/// extra factor of `ONE` compared to its operands.
pub open spec fn prod_exact(a: Mat4Model, b: Mat4Model) -> Mat4Model {
    Mat4Model {
        e00: dot4_model(a.e00, a.e01, a.e02, a.e03, b.e00, b.e10, b.e20, b.e30),
        e01: dot4_model(a.e00, a.e01, a.e02, a.e03, b.e01, b.e11, b.e21, b.e31),
        e02: dot4_model(a.e00, a.e01, a.e02, a.e03, b.e02, b.e12, b.e22, b.e32),
        e03: dot4_model(a.e00, a.e01, a.e02, a.e03, b.e03, b.e13, b.e23, b.e33),
        e10: dot4_model(a.e10, a.e11, a.e12, a.e13, b.e00, b.e10, b.e20, b.e30),
        e11: dot4_model(a.e10, a.e11, a.e12, a.e13, b.e01, b.e11, b.e21, b.e31),
        e12: dot4_model(a.e10, a.e11, a.e12, a.e13, b.e02, b.e12, b.e22, b.e32),
        e13: dot4_model(a.e10, a.e11, a.e12, a.e13, b.e03, b.e13, b.e23, b.e33),
        e20: dot4_model(a.e20, a.e21, a.e22, a.e23, b.e00, b.e10, b.e20, b.e30),
        e21: dot4_model(a.e20, a.e21, a.e22, a.e23, b.e01, b.e11, b.e21, b.e31),
        e22: dot4_model(a.e20, a.e21, a.e22, a.e23, b.e02, b.e12, b.e22, b.e32),
        e23: dot4_model(a.e20, a.e21, a.e22, a.e23, b.e03, b.e13, b.e23, b.e33),
        e30: dot4_model(a.e30, a.e31, a.e32, a.e33, b.e00, b.e10, b.e20, b.e30),
        e31: dot4_model(a.e30, a.e31, a.e32, a.e33, b.e01, b.e11, b.e21, b.e31),
        e32: dot4_model(a.e30, a.e31, a.e32, a.e33, b.e02, b.e12, b.e22, b.e32),
        e33: dot4_model(a.e30, a.e31, a.e32, a.e33, b.e03, b.e13, b.e23, b.e33),
    }
}

/// The fixed-point matrix product: the exact product with every entry
/// scaled back down by `ONE`, rounding toward zero.
pub open spec fn prod_fixed(a: Mat4Model, b: Mat4Model) -> Mat4Model {
    let e = prod_exact(a, b);
    Mat4Model {
        e00: tdiv(e.e00, ONE as int),
        e01: tdiv(e.e01, ONE as int),
        e02: tdiv(e.e02, ONE as int),
        e03: tdiv(e.e03, ONE as int),
        e10: tdiv(e.e10, ONE as int),
        e11: tdiv(e.e11, ONE as int),
        e12: tdiv(e.e12, ONE as int),
        e13: tdiv(e.e13, ONE as int),
        e20: tdiv(e.e20, ONE as int),
        e21: tdiv(e.e21, ONE as int),
        e22: tdiv(e.e22, ONE as int),
        e23: tdiv(e.e23, ONE as int),
        e30: tdiv(e.e30, ONE as int),
        e31: tdiv(e.e31, ONE as int),
        e32: tdiv(e.e32, ONE as int),
        e33: tdiv(e.e33, ONE as int),
    }
}

/// The fixed-point transform of a point: `v` is extended with a
/// homogeneous `ONE` and multiplied from the left, `v' = v_h * m`.
/// The fourth component of the result is dropped.
pub open spec fn point_fixed(m: Mat4Model, v: Vec3Model) -> Vec3Model {
    Vec3Model {
        x: tdiv(dot4_model(v.x, v.y, v.z, ONE as int, m.e00, m.e10, m.e20, m.e30), ONE as int),
        y: tdiv(dot4_model(v.x, v.y, v.z, ONE as int, m.e01, m.e11, m.e21, m.e31), ONE as int),
        z: tdiv(dot4_model(v.x, v.y, v.z, ONE as int, m.e02, m.e12, m.e22, m.e32), ONE as int),
    }
}

/// The fixed-point transform of a direction: only the upper-left 3x3
/// block acts; the translation row is ignored.
pub open spec fn dir_fixed(m: Mat4Model, v: Vec3Model) -> Vec3Model {
    Vec3Model {
        x: tdiv(dot4_model(v.x, v.y, v.z, 0, m.e00, m.e10, m.e20, m.e30), ONE as int),
        y: tdiv(dot4_model(v.x, v.y, v.z, 0, m.e01, m.e11, m.e21, m.e31), ONE as int),
        z: tdiv(dot4_model(v.x, v.y, v.z, 0, m.e02, m.e12, m.e22, m.e32), ONE as int),
    }
}

/// The left fold of a list of matrices, starting from the identity:
/// `chain([m1, m2, ..., mk]) = (((I * m1) * m2) ... ) * mk`.
/// Under the row-vector convention the first matrix of the list is the
/// first applied to a point.
pub open spec fn chain_model(ms: Seq<Mat4Model>) -> Mat4Model
    decreases ms.len(),
{
    if ms.len() == 0 {
        ident_model()
    } else {
        prod_fixed(chain_model(ms.drop_last()), ms.last())
    }
}

/// All entries within the accepted input range.
pub open spec fn mat_in_lim(m: Mat4Model) -> bool {
    &&& crate::fixed::in_lim(m.e00)
    &&& crate::fixed::in_lim(m.e01)
    &&& crate::fixed::in_lim(m.e02)
    &&& crate::fixed::in_lim(m.e03)
    &&& crate::fixed::in_lim(m.e10)
    &&& crate::fixed::in_lim(m.e11)
    &&& crate::fixed::in_lim(m.e12)
    &&& crate::fixed::in_lim(m.e13)
    &&& crate::fixed::in_lim(m.e20)
    &&& crate::fixed::in_lim(m.e21)
    &&& crate::fixed::in_lim(m.e22)
    &&& crate::fixed::in_lim(m.e23)
    &&& crate::fixed::in_lim(m.e30)
    &&& crate::fixed::in_lim(m.e31)
    &&& crate::fixed::in_lim(m.e32)
    &&& crate::fixed::in_lim(m.e33)
}

/// All components within the accepted input range.
pub open spec fn vec_in_lim(v: Vec3Model) -> bool {
    &&& crate::fixed::in_lim(v.x)
    &&& crate::fixed::in_lim(v.y)
    &&& crate::fixed::in_lim(v.z)
}

// --- rotation ---

/// A rotation axis whose squared norm is below this threshold counts as
/// zero-length and is rejected: its direction is meaningless. The bound
/// is `(ONE / 1000)^2`, a length of one thousandth of a unit.
pub const MIN_AXIS_NORM_SQ: i64 = 100;

/// Componentwise tolerance for recognizing a canonical axis: a direction
/// within a thousandth of a unit of `(1, 0, 0)`, `(0, 1, 0)` or
/// `(0, 0, 1)` takes the closed-form single-axis rotation.
pub const AXIS_CANON_EPS: i64 = 10;

/// Tolerance on the squared norm under which a direction counts as
/// already normalized and is used as it stands.
pub const UNIT_NORM_SQ_EPS: i64 = 200000;

/// The squared euclidean norm of a vector.
pub open spec fn norm_sq_model(v: Vec3Model) -> int {
    v.x * v.x + v.y * v.y + v.z * v.z
}

/// Near the canonical `x` axis, within `AXIS_CANON_EPS` per component.
pub open spec fn axis_near_unit_x(v: Vec3Model) -> bool {
    mag(v.x - ONE) <= AXIS_CANON_EPS && mag(v.y) <= AXIS_CANON_EPS && mag(v.z) <= AXIS_CANON_EPS
}

/// Near the canonical `y` axis.
pub open spec fn axis_near_unit_y(v: Vec3Model) -> bool {
    mag(v.x) <= AXIS_CANON_EPS && mag(v.y - ONE) <= AXIS_CANON_EPS && mag(v.z) <= AXIS_CANON_EPS
}

/// Near the canonical `z` axis.
pub open spec fn axis_near_unit_z(v: Vec3Model) -> bool {
    mag(v.x) <= AXIS_CANON_EPS && mag(v.y) <= AXIS_CANON_EPS && mag(v.z - ONE) <= AXIS_CANON_EPS
}

/// A direction scaled to unit length: left alone when its squared norm is
/// already within `UNIT_NORM_SQ_EPS` of one, otherwise divided by the
/// floor of its euclidean norm.
pub open spec fn normalize_model(v: Vec3Model) -> Vec3Model {
    let nsq = norm_sq_model(v);
    if mag(nsq - ONE_SQ) <= UNIT_NORM_SQ_EPS {
        v
    } else {
        let l = sqrt_floor(nsq as nat) as int;
        Vec3Model { x: tdiv(v.x * ONE, l), y: tdiv(v.y * ONE, l), z: tdiv(v.z * ONE, l) }
    }
}

/// Rotation about the `x` axis by the angle whose cosine and sine are
/// `c` and `s`, for row vectors.
pub open spec fn rot_x_model(c: int, s: int) -> Mat4Model {
    Mat4Model {
        e00: ONE as int, e01: 0, e02: 0, e03: 0,
        e10: 0, e11: c, e12: -s, e13: 0,
        e20: 0, e21: s, e22: c, e23: 0,
        e30: 0, e31: 0, e32: 0, e33: ONE as int,
    }
}

/// Rotation about the `y` axis, for row vectors.
pub open spec fn rot_y_model(c: int, s: int) -> Mat4Model {
    Mat4Model {
        e00: c, e01: 0, e02: s, e03: 0,
        e10: 0, e11: ONE as int, e12: 0, e13: 0,
        e20: -s, e21: 0, e22: c, e23: 0,
        e30: 0, e31: 0, e32: 0, e33: ONE as int,
    }
}

/// Rotation about the `z` axis, for row vectors.
pub open spec fn rot_z_model(c: int, s: int) -> Mat4Model {
    Mat4Model {
        e00: c, e01: -s, e02: 0, e03: 0,
        e10: s, e11: c, e12: 0, e13: 0,
        e20: 0, e21: 0, e22: ONE as int, e23: 0,
        e30: 0, e31: 0, e32: 0, e33: ONE as int,
    }
}

/// Rodrigues' rotation matrix for a unit axis `n` and the angle whose
/// cosine and sine are `c` and `s`: the fixed-point reading of
/// `R = I cos + (1 - cos) (n x n) + sin [n]x`, laid out for row vectors.
/// An axis product `n_i * n_j` carries two factors of `ONE` and is scaled
/// down by `ONE_SQ`; a product with `s` carries one and is scaled by `ONE`.
pub open spec fn rodrigues_model(c: int, s: int, n: Vec3Model) -> Mat4Model {
    let nc = ONE - c;
    Mat4Model {
        e00: tdiv(n.x * n.x * nc, ONE_SQ as int) + c,
        e01: tdiv(n.x * n.y * nc, ONE_SQ as int) - tdiv(n.z * s, ONE as int),
        e02: tdiv(n.z * n.x * nc, ONE_SQ as int) + tdiv(n.y * s, ONE as int),
        e03: 0,
        e10: tdiv(n.x * n.y * nc, ONE_SQ as int) + tdiv(n.z * s, ONE as int),
        e11: tdiv(n.y * n.y * nc, ONE_SQ as int) + c,
        e12: tdiv(n.y * n.z * nc, ONE_SQ as int) - tdiv(n.x * s, ONE as int),
        e13: 0,
        e20: tdiv(n.z * n.x * nc, ONE_SQ as int) - tdiv(n.y * s, ONE as int),
        e21: tdiv(n.y * n.z * nc, ONE_SQ as int) + tdiv(n.x * s, ONE as int),
        e22: tdiv(n.z * n.z * nc, ONE_SQ as int) + c,
        e23: 0,
        e30: 0, e31: 0, e32: 0, e33: ONE as int,
    }
}

/// The rotation matrix for a direction `d` and an angle with cosine `c`
/// and sine `s`: the closed single-axis form for near-canonical
/// directions, Rodrigues' formula on the normalized direction otherwise.
pub open spec fn rotate_model(c: int, s: int, d: Vec3Model) -> Mat4Model {
    if axis_near_unit_x(d) {
        rot_x_model(c, s)
    } else if axis_near_unit_y(d) {
        rot_y_model(c, s)
    } else if axis_near_unit_z(d) {
        rot_z_model(c, s)
    } else {
        rodrigues_model(c, s, normalize_model(d))
    }
}

} // verus!
