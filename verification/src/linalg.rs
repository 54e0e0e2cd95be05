//! The affine-transform library: vectors, 4x4 matrices, their builders
//! (identity, translate, scale, rotate), the matrix product, the ordered
//! chain product, and the point and direction transforms.
//!
//! Every function computes exactly the model stated in [`crate::model`];
//! `requires` clauses only keep inputs inside the range where the
//! fixed-point arithmetic fits in 64 bits.

use vstd::prelude::*;
use crate::fixed::{
    ONE, ONE_SQ, LIM, in_lim, tdiv, sqrt_floor, isqrt_u64, lemma_tdiv_abs_le,
    lemma_sqrt_floor_bounds, lemma_sqrt_floor_of_square, lemma_sqrt_floor_monotone,
};
use vstd::arithmetic::div_mod::lemma_div_multiples_vanish;
use vstd::arithmetic::mul::lemma_mul_cancels_negatives;
use crate::model::{
    Vec3Model, Mat4Model, dot4_model, ident_model, translate_model, scale_model, prod_fixed,
    point_fixed, dir_fixed, chain_model, mat_in_lim, vec_in_lim, mag, norm_sq_model,
    axis_near_unit_x, axis_near_unit_y, axis_near_unit_z, normalize_model, rot_x_model,
    rot_y_model, rot_z_model, rodrigues_model, rotate_model, MIN_AXIS_NORM_SQ, AXIS_CANON_EPS,
    UNIT_NORM_SQ_EPS,
};
use crate::trig::{
    Angle, angle_sin_cos, angle_in_lim, angle_deg_model, sin_deg_model, cos_deg_model,
};

verus! {

/// A vector of three fixed-point components, a point or a direction as
/// the caller decides.
#[derive(Clone, Copy, Debug, PartialEq, Eq, Structural)]
pub struct Vector3 {
    pub x: i64,
    pub y: i64,
    pub z: i64,
}

/// A 4x4 matrix of fixed-point entries, row-major. `mij` is the entry in
/// row `i`, column `j`; under the row-vector convention the translation
/// components sit in row 3.
#[derive(Clone, Copy, Debug, PartialEq, Eq, Structural)]
pub struct Matrix4 {
    pub m00: i64,
    pub m01: i64,
    pub m02: i64,
    pub m03: i64,
    pub m10: i64,
    pub m11: i64,
    pub m12: i64,
    pub m13: i64,
    pub m20: i64,
    pub m21: i64,
    pub m22: i64,
    pub m23: i64,
    pub m30: i64,
    pub m31: i64,
    pub m32: i64,
    pub m33: i64,
}

/// What can go wrong when building a rotation.
#[derive(Clone, Copy, Debug, PartialEq, Eq, Structural)]
pub enum LinalgError {
    /// The rotation axis is too close to zero length to carry a
    /// direction.
    InvalidAxis,
    /// An input component lies outside the representable range
    /// `[-LIM, LIM]`, the fixed-point counterpart of a non-finite float.
    NonFiniteInput,
}

impl View for Vector3 {
    type V = Vec3Model;

    open spec fn view(&self) -> Vec3Model {
        Vec3Model { x: self.x as int, y: self.y as int, z: self.z as int }
    }
}

impl View for Matrix4 {
    type V = Mat4Model;

    open spec fn view(&self) -> Mat4Model {
        Mat4Model {
            e00: self.m00 as int,
            e01: self.m01 as int,
            e02: self.m02 as int,
            e03: self.m03 as int,
            e10: self.m10 as int,
            e11: self.m11 as int,
            e12: self.m12 as int,
            e13: self.m13 as int,
            e20: self.m20 as int,
            e21: self.m21 as int,
            e22: self.m22 as int,
            e23: self.m23 as int,
            e30: self.m30 as int,
            e31: self.m31 as int,
            e32: self.m32 as int,
            e33: self.m33 as int,
        }
    }
}

/// The models of a list of matrices.
pub open spec fn models_of(s: Seq<Matrix4>) -> Seq<Mat4Model> {
    s.map_values(|m: Matrix4| m@)
}

/// A four-term fixed-point dot product: the exact dot product scaled
/// back down by `ONE`.
fn dot4_scaled(a0: i64, a1: i64, a2: i64, a3: i64, b0: i64, b1: i64, b2: i64, b3: i64) -> (r:
    i64)
    requires
        in_lim(a0 as int),
        in_lim(a1 as int),
        in_lim(a2 as int),
        in_lim(a3 as int),
        in_lim(b0 as int),
        in_lim(b1 as int),
        in_lim(b2 as int),
        in_lim(b3 as int),
    ensures
        r == tdiv(
            dot4_model(
                a0 as int,
                a1 as int,
                a2 as int,
                a3 as int,
                b0 as int,
                b1 as int,
                b2 as int,
                b3 as int,
            ),
            ONE as int,
        ),
        -400000000000000 <= r <= 400000000000000,
{
    proof {
        assert(-1000000000000000000 <= (a0 as int) * (b0 as int) <= 1000000000000000000
            && -1000000000000000000 <= (a1 as int) * (b1 as int) <= 1000000000000000000
            && -1000000000000000000 <= (a2 as int) * (b2 as int) <= 1000000000000000000
            && -1000000000000000000 <= (a3 as int) * (b3 as int) <= 1000000000000000000)
            by (nonlinear_arith)
            requires
                -1000000000 <= a0 <= 1000000000,
                -1000000000 <= a1 <= 1000000000,
                -1000000000 <= a2 <= 1000000000,
                -1000000000 <= a3 <= 1000000000,
                -1000000000 <= b0 <= 1000000000,
                -1000000000 <= b1 <= 1000000000,
                -1000000000 <= b2 <= 1000000000,
                -1000000000 <= b3 <= 1000000000,
        ;
    }
    let s = a0 * b0 + a1 * b1 + a2 * b2 + a3 * b3;
    proof {
        lemma_tdiv_abs_le(s as int, ONE as int, 4000000000000000000);
    }
    s / ONE
}

/// The identity matrix.
pub fn mat4_ident() -> (r: Matrix4)
    ensures
        r@ == ident_model(),
{
    Matrix4 {
        m00: ONE, m01: 0, m02: 0, m03: 0,
        m10: 0, m11: ONE, m12: 0, m13: 0,
        m20: 0, m21: 0, m22: ONE, m23: 0,
        m30: 0, m31: 0, m32: 0, m33: ONE,
    }
}

/// The translation matrix for `amount`: the identity with the offset in
/// row 3, columns 0 to 2, as the row-vector convention requires.
/// Applying it to a point adds `amount` to the point.
pub fn mat4_translate(amount: Vector3) -> (r: Matrix4)
    ensures
        r@ == translate_model(amount@),
{
    Matrix4 {
        m00: ONE, m01: 0, m02: 0, m03: 0,
        m10: 0, m11: ONE, m12: 0, m13: 0,
        m20: 0, m21: 0, m22: ONE, m23: 0,
        m30: amount.x, m31: amount.y, m32: amount.z, m33: ONE,
    }
}

/// The scale matrix for `amount`: the factors on the diagonal, `ONE` in
/// the corner. Scaling by `(ONE, ONE, ONE)` is the identity.
pub fn mat4_scale(amount: Vector3) -> (r: Matrix4)
    ensures
        r@ == scale_model(amount@),
{
    Matrix4 {
        m00: amount.x, m01: 0, m02: 0, m03: 0,
        m10: 0, m11: amount.y, m12: 0, m13: 0,
        m20: 0, m21: 0, m22: amount.z, m23: 0,
        m30: 0, m31: 0, m32: 0, m33: ONE,
    }
}

/// The matrix product `a * b`: entry `(i, j)` is the fixed-point dot
/// product of row `i` of `a` with column `j` of `b`.
pub fn mat4_mul(a: Matrix4, b: Matrix4) -> (r: Matrix4)
    requires
        mat_in_lim(a@),
        mat_in_lim(b@),
    ensures
        r@ == prod_fixed(a@, b@),
{
    Matrix4 {
        m00: dot4_scaled(a.m00, a.m01, a.m02, a.m03, b.m00, b.m10, b.m20, b.m30),
        m01: dot4_scaled(a.m00, a.m01, a.m02, a.m03, b.m01, b.m11, b.m21, b.m31),
        m02: dot4_scaled(a.m00, a.m01, a.m02, a.m03, b.m02, b.m12, b.m22, b.m32),
        m03: dot4_scaled(a.m00, a.m01, a.m02, a.m03, b.m03, b.m13, b.m23, b.m33),
        m10: dot4_scaled(a.m10, a.m11, a.m12, a.m13, b.m00, b.m10, b.m20, b.m30),
        m11: dot4_scaled(a.m10, a.m11, a.m12, a.m13, b.m01, b.m11, b.m21, b.m31),
        m12: dot4_scaled(a.m10, a.m11, a.m12, a.m13, b.m02, b.m12, b.m22, b.m32),
        m13: dot4_scaled(a.m10, a.m11, a.m12, a.m13, b.m03, b.m13, b.m23, b.m33),
        m20: dot4_scaled(a.m20, a.m21, a.m22, a.m23, b.m00, b.m10, b.m20, b.m30),
        m21: dot4_scaled(a.m20, a.m21, a.m22, a.m23, b.m01, b.m11, b.m21, b.m31),
        m22: dot4_scaled(a.m20, a.m21, a.m22, a.m23, b.m02, b.m12, b.m22, b.m32),
        m23: dot4_scaled(a.m20, a.m21, a.m22, a.m23, b.m03, b.m13, b.m23, b.m33),
        m30: dot4_scaled(a.m30, a.m31, a.m32, a.m33, b.m00, b.m10, b.m20, b.m30),
        m31: dot4_scaled(a.m30, a.m31, a.m32, a.m33, b.m01, b.m11, b.m21, b.m31),
        m32: dot4_scaled(a.m30, a.m31, a.m32, a.m33, b.m02, b.m12, b.m22, b.m32),
        m33: dot4_scaled(a.m30, a.m31, a.m32, a.m33, b.m03, b.m13, b.m23, b.m33),
    }
}

/// The ordered product of a list of matrices: a left fold starting from
/// the identity. Under the row-vector convention the first matrix of
/// the list is the first applied to a point.
///
/// The preconditions keep every matrix and every partial product inside
/// the range the 64-bit multiply accepts; a caller with matrices of at
/// most one unit per entry and a handful of factors satisfies them with
/// room to spare.
pub fn mat4_vec_mul(mats: Vec<Matrix4>) -> (r: Matrix4)
    requires
        forall|i: int| 0 <= i < mats@.len() ==> mat_in_lim(#[trigger] mats@[i]@),
        forall|k: int|
            0 <= k <= mats@.len() ==> mat_in_lim(
                chain_model(#[trigger] models_of(mats@).take(k)),
            ),
    ensures
        r@ == chain_model(models_of(mats@)),
{
    let mut result = mat4_ident();
    proof {
        assert(models_of(mats@).take(0) =~= Seq::<Mat4Model>::empty());
    }
    let mut i: usize = 0;
    while i < mats.len()
        invariant
            i <= mats.len(),
            result@ == chain_model(models_of(mats@).take(i as int)),
            forall|j: int| 0 <= j < mats@.len() ==> mat_in_lim(#[trigger] mats@[j]@),
            forall|k: int|
                0 <= k <= mats@.len() ==> mat_in_lim(
                    chain_model(#[trigger] models_of(mats@).take(k)),
                ),
        decreases mats@.len() - i,
    {
        let m = mats[i];
        proof {
            assert(models_of(mats@)[i as int] == mats@[i as int]@);
        }
        result = mat4_mul(result, m);
        proof {
            let ms = models_of(mats@);
            assert(ms.take(i + 1).drop_last() =~= ms.take(i as int));
            assert(ms.take(i + 1).last() == ms[i as int]);
        }
        i = i + 1;
    }
    proof {
        assert(models_of(mats@).take(mats@.len() as int) =~= models_of(mats@));
    }
    result
}

/// The transform of a point: `vec` is extended with a homogeneous `ONE`
/// and right-multiplies `mat`; the fourth component of the result is
/// dropped. This applies the whole affine map, translation included.
pub fn mat4_mul_vec3(mat: Matrix4, vec: Vector3) -> (r: Vector3)
    requires
        mat_in_lim(mat@),
        vec_in_lim(vec@),
    ensures
        r@ == point_fixed(mat@, vec@),
{
    Vector3 {
        x: dot4_scaled(vec.x, vec.y, vec.z, ONE, mat.m00, mat.m10, mat.m20, mat.m30),
        y: dot4_scaled(vec.x, vec.y, vec.z, ONE, mat.m01, mat.m11, mat.m21, mat.m31),
        z: dot4_scaled(vec.x, vec.y, vec.z, ONE, mat.m02, mat.m12, mat.m22, mat.m32),
    }
}

/// The transform of a direction: only the upper-left 3x3 block of `mat`
/// acts, the translation row is ignored. Correct for tangent directions
/// under any affine map; normals of surfaces under non-uniform scale
/// need the inverse transpose, which this library does not build.
pub fn mat4_mul_dir3(mat: Matrix4, vec: Vector3) -> (r: Vector3)
    requires
        mat_in_lim(mat@),
        vec_in_lim(vec@),
    ensures
        r@ == dir_fixed(mat@, vec@),
{
    Vector3 {
        x: dot4_scaled(vec.x, vec.y, vec.z, 0, mat.m00, mat.m10, mat.m20, mat.m30),
        y: dot4_scaled(vec.x, vec.y, vec.z, 0, mat.m01, mat.m11, mat.m21, mat.m31),
        z: dot4_scaled(vec.x, vec.y, vec.z, 0, mat.m02, mat.m12, mat.m22, mat.m32),
    }
}

/// Whether a component lies in the accepted input range.
fn finite_i64(v: i64) -> (b: bool)
    ensures
        b == in_lim(v as int),
{
    -LIM <= v && v <= LIM
}

/// Whether a component is within the canonical-axis tolerance of `t`.
fn near_i64(a: i64, t: i64) -> (b: bool)
    requires
        in_lim(a as int),
        0 <= t <= ONE,
    ensures
        b == (mag(a - t) <= AXIS_CANON_EPS),
{
    let d = a - t;
    -AXIS_CANON_EPS <= d && d <= AXIS_CANON_EPS
}

/// One Rodrigues cell `na * nb * nc / ONE_SQ`, for axis components of
/// at most slightly over one unit and `nc` between zero and two units.
fn rod_cell(na: i64, nb: i64, nc: i64) -> (r: i64)
    requires
        -10010 <= na <= 10010,
        -10010 <= nb <= 10010,
        0 <= nc <= 20000,
    ensures
        r == tdiv(na * nb * nc, ONE_SQ as int),
        -20041 <= r <= 20041,
{
    proof {
        assert(-100200100 <= (na as int) * (nb as int) <= 100200100) by (nonlinear_arith)
            requires
                -10010 <= na <= 10010,
                -10010 <= nb <= 10010,
        ;
    }
    let ab = na * nb;
    proof {
        assert(-2004002000000 <= (ab as int) * (nc as int) <= 2004002000000) by (nonlinear_arith)
            requires
                -100200100 <= ab <= 100200100,
                0 <= nc <= 20000,
        ;
    }
    let abc = ab * nc;
    proof {
        lemma_tdiv_abs_le(abc as int, ONE_SQ as int, 2004002000000);
    }
    abc / ONE_SQ
}

/// One skew cell `n * s / ONE`, for an axis component of at most
/// slightly over one unit and a sine within `[-ONE, ONE]`.
fn skew_cell(n: i64, s: i64) -> (r: i64)
    requires
        -10010 <= n <= 10010,
        -ONE <= s <= ONE,
    ensures
        r == tdiv(n * s, ONE as int),
        -10010 <= r <= 10010,
{
    proof {
        assert(-100100000 <= (n as int) * (s as int) <= 100100000) by (nonlinear_arith)
            requires
                -10010 <= n <= 10010,
                -10000 <= s <= 10000,
        ;
    }
    let p = n * s;
    proof {
        lemma_tdiv_abs_le(p as int, ONE as int, 100100000);
    }
    p / ONE
}

/// The rotation matrix for an axis-angle pair, for row vectors.
///
/// The angle is reduced to degrees and its sine and cosine taken from
/// the library's trigonometry; a direction within tolerance of a
/// canonical axis takes the closed single-axis form, any other direction
/// is normalized and runs through Rodrigues' formula.
///
/// Failure is exhaustive and exact: `NonFiniteInput` if and only if the
/// angle payload or a direction component lies outside `[-LIM, LIM]`,
/// otherwise `InvalidAxis` if and only if the squared norm of the
/// direction is below `MIN_AXIS_NORM_SQ`; every other input rotates.
pub fn mat4_rotate(angle: Angle, dir: Vector3) -> (r: Result<Matrix4, LinalgError>)
    ensures
        !(angle_in_lim(angle) && vec_in_lim(dir@)) ==> r == Err::<Matrix4, LinalgError>(
            LinalgError::NonFiniteInput,
        ),
        angle_in_lim(angle) && vec_in_lim(dir@) && norm_sq_model(dir@) < MIN_AXIS_NORM_SQ ==> r
            == Err::<Matrix4, LinalgError>(LinalgError::InvalidAxis),
        angle_in_lim(angle) && vec_in_lim(dir@) && norm_sq_model(dir@) >= MIN_AXIS_NORM_SQ ==> (
        r matches Ok(m) && m@ == rotate_model(
            cos_deg_model(angle_deg_model(angle)),
            sin_deg_model(angle_deg_model(angle)),
            dir@,
        )),
{
    let angle_finite = match angle {
        Angle::Deg(d) => finite_i64(d),
        Angle::Rad(rad) => finite_i64(rad),
    };
    if !(angle_finite && finite_i64(dir.x) && finite_i64(dir.y) && finite_i64(dir.z)) {
        return Err(LinalgError::NonFiniteInput);
    }
    proof {
        assert(0 <= (dir.x as int) * (dir.x as int) <= 1000000000000000000
            && 0 <= (dir.y as int) * (dir.y as int) <= 1000000000000000000
            && 0 <= (dir.z as int) * (dir.z as int) <= 1000000000000000000) by (nonlinear_arith)
            requires
                -1000000000 <= dir.x <= 1000000000,
                -1000000000 <= dir.y <= 1000000000,
                -1000000000 <= dir.z <= 1000000000,
        ;
    }
    let nsq = dir.x * dir.x + dir.y * dir.y + dir.z * dir.z;
    if nsq < MIN_AXIS_NORM_SQ {
        return Err(LinalgError::InvalidAxis);
    }
    let sc = angle_sin_cos(angle);
    let s = sc.0;
    let c = sc.1;
    if near_i64(dir.x, ONE) && near_i64(dir.y, 0) && near_i64(dir.z, 0) {
        Ok(
            Matrix4 {
                m00: ONE, m01: 0, m02: 0, m03: 0,
                m10: 0, m11: c, m12: -s, m13: 0,
                m20: 0, m21: s, m22: c, m23: 0,
                m30: 0, m31: 0, m32: 0, m33: ONE,
            },
        )
    } else if near_i64(dir.x, 0) && near_i64(dir.y, ONE) && near_i64(dir.z, 0) {
        Ok(
            Matrix4 {
                m00: c, m01: 0, m02: s, m03: 0,
                m10: 0, m11: ONE, m12: 0, m13: 0,
                m20: -s, m21: 0, m22: c, m23: 0,
                m30: 0, m31: 0, m32: 0, m33: ONE,
            },
        )
    } else if near_i64(dir.x, 0) && near_i64(dir.y, 0) && near_i64(dir.z, ONE) {
        Ok(
            Matrix4 {
                m00: c, m01: -s, m02: 0, m03: 0,
                m10: s, m11: c, m12: 0, m13: 0,
                m20: 0, m21: 0, m22: ONE, m23: 0,
                m30: 0, m31: 0, m32: 0, m33: ONE,
            },
        )
    } else {
        let mut nx = dir.x;
        let mut ny = dir.y;
        let mut nz = dir.z;
        let dev = nsq - ONE_SQ;
        if !(-UNIT_NORM_SQ_EPS <= dev && dev <= UNIT_NORM_SQ_EPS) {
            proof {
                lemma_sqrt_floor_bounds(nsq as nat);
                assert((nsq as u64) as nat == nsq as nat);
                lemma_norm_bounds_component(dir.x as int, nsq as int, dir.y as int, dir.z as int);
                lemma_norm_bounds_component(dir.y as int, nsq as int, dir.x as int, dir.z as int);
                lemma_norm_bounds_component(dir.z as int, nsq as int, dir.x as int, dir.y as int);
            }
            let l = isqrt_u64(nsq as u64) as i64;
            proof {
                assert(l >= 10) by (nonlinear_arith)
                    requires
                        (l + 1) * (l + 1) > 100,
                        l >= 0,
                ;
                lemma_tdiv_abs_le(dir.x * ONE, l as int, (l as int) * ONE);
                lemma_tdiv_abs_le(dir.y * ONE, l as int, (l as int) * ONE);
                lemma_tdiv_abs_le(dir.z * ONE, l as int, (l as int) * ONE);
                lemma_div_multiples_vanish(ONE as int, l as int);
            }
            nx = (dir.x * ONE) / l;
            ny = (dir.y * ONE) / l;
            nz = (dir.z * ONE) / l;
        } else {
            proof {
                assert(-10010 <= dir.x <= 10010 && -10010 <= dir.y <= 10010 && -10010 <= dir.z
                    <= 10010) by (nonlinear_arith)
                    requires
                        (dir.x as int) * (dir.x as int) + (dir.y as int) * (dir.y as int) + (
                        dir.z as int) * (dir.z as int) <= 100200000,
                        0 <= (dir.x as int) * (dir.x as int),
                        0 <= (dir.y as int) * (dir.y as int),
                        0 <= (dir.z as int) * (dir.z as int),
                ;
            }
        }
        proof {
            assert(Vec3Model { x: nx as int, y: ny as int, z: nz as int } == normalize_model(
                dir@,
            ));
        }
        let nc = ONE - c;
        Ok(
            Matrix4 {
                m00: rod_cell(nx, nx, nc) + c,
                m01: rod_cell(nx, ny, nc) - skew_cell(nz, s),
                m02: rod_cell(nz, nx, nc) + skew_cell(ny, s),
                m03: 0,
                m10: rod_cell(nx, ny, nc) + skew_cell(nz, s),
                m11: rod_cell(ny, ny, nc) + c,
                m12: rod_cell(ny, nz, nc) - skew_cell(nx, s),
                m13: 0,
                m20: rod_cell(nz, nx, nc) - skew_cell(ny, s),
                m21: rod_cell(ny, nz, nc) + skew_cell(nx, s),
                m22: rod_cell(nz, nz, nc) + c,
                m23: 0,
                m30: 0, m31: 0, m32: 0, m33: ONE,
            },
        )
    }
}

/// A component of a vector is bounded by the square root of the squared
/// norm: `mag(x) <= sqrt_floor(x * x + y * y + z * z)`.
proof fn lemma_norm_bounds_component(x: int, nsq: int, y: int, z: int)
    requires
        nsq == x * x + y * y + z * z,
    ensures
        0 <= nsq,
        mag(x) <= sqrt_floor(nsq as nat),
{
    assert(0 <= x * x && 0 <= y * y && 0 <= z * z) by (nonlinear_arith);
    let a = mag(x);
    if x < 0 {
        lemma_mul_cancels_negatives(x, x);
        assert(a * a == x * x);
    }
    lemma_sqrt_floor_of_square(a as nat);
    lemma_sqrt_floor_monotone((a * a) as nat, nsq as nat);
}

} // verus!
