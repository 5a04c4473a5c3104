//! Fixed-point 4x4 matrices for the camera uniform: the right-handed
//! look-to view matrix, the perspective projection, its closed-form inverse,
//! transposition and multiplication. Matrices are stored column-major, as
//! the GPU-side declaration expects.

use vstd::prelude::*;

verus! {

use crate::fixed::{
    FX_ONE,
    Vec3Fx,
    vec3_bounded,
    fx_mul,
    fx_div,
    spec_fx_mul,
    spec_fx_div,
    tdiv,
    lemma_mul_bound,
    lemma_fx_mul_bound,
    lemma_tdiv_shrinks,
    lemma_normalize_unit,
    lemma_fx_div_denom_bound,
};
use crate::trig::{sin_fx, cos_fx, spec_sin_fx, spec_cos_fx, PI_FX};

/// A column of a fixed-point 4x4 matrix.
#[derive(Clone, Copy, Debug, PartialEq, Eq, Structural)]
pub struct Vec4Fx {
    pub x: i64,
    pub y: i64,
    pub z: i64,
    pub w: i64,
}

/// A fixed-point 4x4 matrix, column-major.
#[derive(Clone, Copy, Debug, PartialEq, Eq, Structural)]
pub struct Mat4Fx {
    pub c0: Vec4Fx,
    pub c1: Vec4Fx,
    pub c2: Vec4Fx,
    pub c3: Vec4Fx,
}

/// All four components lie within [-m, m].
pub open spec fn v4_bounded(v: Vec4Fx, m: int) -> bool {
    &&& -m <= v.x <= m
    &&& -m <= v.y <= m
    &&& -m <= v.z <= m
    &&& -m <= v.w <= m
}

/// All sixteen entries lie within [-m, m].
pub open spec fn m4_bounded(m4: Mat4Fx, m: int) -> bool {
    &&& v4_bounded(m4.c0, m)
    &&& v4_bounded(m4.c1, m)
    &&& v4_bounded(m4.c2, m)
    &&& v4_bounded(m4.c3, m)
}

/// The largest entry magnitude the matrix product accepts on either side.
pub const M4_LIM: i64 = 0x40_0000_0000;

/// The identity matrix: ones down the diagonal.
pub open spec fn spec_m4_identity() -> Mat4Fx {
    Mat4Fx {
        c0: Vec4Fx { x: FX_ONE, y: 0, z: 0, w: 0 },
        c1: Vec4Fx { x: 0, y: FX_ONE, z: 0, w: 0 },
        c2: Vec4Fx { x: 0, y: 0, z: FX_ONE, w: 0 },
        c3: Vec4Fx { x: 0, y: 0, z: 0, w: FX_ONE },
    }
}

impl Mat4Fx {
    pub fn identity() -> (r: Mat4Fx)
        ensures
            r == spec_m4_identity(),
    {
        Mat4Fx {
            c0: Vec4Fx { x: FX_ONE, y: 0, z: 0, w: 0 },
            c1: Vec4Fx { x: 0, y: FX_ONE, z: 0, w: 0 },
            c2: Vec4Fx { x: 0, y: 0, z: FX_ONE, w: 0 },
            c3: Vec4Fx { x: 0, y: 0, z: 0, w: FX_ONE },
        }
    }

    /// Rows become columns.
    pub open spec fn spec_transpose(self) -> Mat4Fx {
        Mat4Fx {
            c0: Vec4Fx { x: self.c0.x, y: self.c1.x, z: self.c2.x, w: self.c3.x },
            c1: Vec4Fx { x: self.c0.y, y: self.c1.y, z: self.c2.y, w: self.c3.y },
            c2: Vec4Fx { x: self.c0.z, y: self.c1.z, z: self.c2.z, w: self.c3.z },
            c3: Vec4Fx { x: self.c0.w, y: self.c1.w, z: self.c2.w, w: self.c3.w },
        }
    }

    pub fn transpose(self) -> (r: Mat4Fx)
        ensures
            r == self.spec_transpose(),
    {
        Mat4Fx {
            c0: Vec4Fx { x: self.c0.x, y: self.c1.x, z: self.c2.x, w: self.c3.x },
            c1: Vec4Fx { x: self.c0.y, y: self.c1.y, z: self.c2.y, w: self.c3.y },
            c2: Vec4Fx { x: self.c0.z, y: self.c1.z, z: self.c2.z, w: self.c3.z },
            c3: Vec4Fx { x: self.c0.w, y: self.c1.w, z: self.c2.w, w: self.c3.w },
        }
    }
}

/// The inverse of a rigid transform: the rotation block transposed, the
/// translation column replaced by the negated transposed rotation applied
/// to it, and the homogeneous corner kept at the unit. For a view matrix
/// this is the true inverse (up to fixed-point rounding), where a plain
/// transpose would mishandle the translation.
pub open spec fn spec_rigid_inverse(m: Mat4Fx) -> Mat4Fx {
    Mat4Fx {
        c0: Vec4Fx { x: m.c0.x, y: m.c1.x, z: m.c2.x, w: 0 },
        c1: Vec4Fx { x: m.c0.y, y: m.c1.y, z: m.c2.y, w: 0 },
        c2: Vec4Fx { x: m.c0.z, y: m.c1.z, z: m.c2.z, w: 0 },
        c3: Vec4Fx {
            x: (-(spec_fx_mul(m.c0.x as int, m.c3.x as int) + spec_fx_mul(
                m.c0.y as int,
                m.c3.y as int,
            ) + spec_fx_mul(m.c0.z as int, m.c3.z as int))) as i64,
            y: (-(spec_fx_mul(m.c1.x as int, m.c3.x as int) + spec_fx_mul(
                m.c1.y as int,
                m.c3.y as int,
            ) + spec_fx_mul(m.c1.z as int, m.c3.z as int))) as i64,
            z: (-(spec_fx_mul(m.c2.x as int, m.c3.x as int) + spec_fx_mul(
                m.c2.y as int,
                m.c3.y as int,
            ) + spec_fx_mul(m.c2.z as int, m.c3.z as int))) as i64,
            w: FX_ONE,
        },
    }
}

/// Invert a rigid transform.
pub fn rigid_inverse(m: &Mat4Fx) -> (r: Mat4Fx)
    requires
        m4_bounded(*m, M4_LIM as int),
    ensures
        r == spec_rigid_inverse(*m),
{
    proof {
        lemma_rigid_trans_fits(m.c0, m.c3);
        lemma_rigid_trans_fits(m.c1, m.c3);
        lemma_rigid_trans_fits(m.c2, m.c3);
    }
    let tx: i64 = -(fx_mul(m.c0.x, m.c3.x) + fx_mul(m.c0.y, m.c3.y) + fx_mul(m.c0.z, m.c3.z));
    let ty: i64 = -(fx_mul(m.c1.x, m.c3.x) + fx_mul(m.c1.y, m.c3.y) + fx_mul(m.c1.z, m.c3.z));
    let tz: i64 = -(fx_mul(m.c2.x, m.c3.x) + fx_mul(m.c2.y, m.c3.y) + fx_mul(m.c2.z, m.c3.z));
    Mat4Fx {
        c0: Vec4Fx { x: m.c0.x, y: m.c1.x, z: m.c2.x, w: 0 },
        c1: Vec4Fx { x: m.c0.y, y: m.c1.y, z: m.c2.y, w: 0 },
        c2: Vec4Fx { x: m.c0.z, y: m.c1.z, z: m.c2.z, w: 0 },
        c3: Vec4Fx { x: tx, y: ty, z: tz, w: FX_ONE },
    }
}

/// One translation entry of a rigid inverse fits comfortably in the scalar
/// range.
proof fn lemma_rigid_trans_fits(a: Vec4Fx, t: Vec4Fx)
    requires
        v4_bounded(a, M4_LIM as int),
        v4_bounded(t, M4_LIM as int),
    ensures
        -(i64::MAX * (FX_ONE as int)) <= a.x * t.x <= i64::MAX * (FX_ONE as int),
        -(i64::MAX * (FX_ONE as int)) <= a.y * t.y <= i64::MAX * (FX_ONE as int),
        -(i64::MAX * (FX_ONE as int)) <= a.z * t.z <= i64::MAX * (FX_ONE as int),
        -0x1000_0000_0000_0000 <= spec_fx_mul(a.x as int, t.x as int) <= 0x1000_0000_0000_0000,
        -0x1000_0000_0000_0000 <= spec_fx_mul(a.y as int, t.y as int) <= 0x1000_0000_0000_0000,
        -0x1000_0000_0000_0000 <= spec_fx_mul(a.z as int, t.z as int) <= 0x1000_0000_0000_0000,
{
    lemma_mul_bound(a.x as int, t.x as int, M4_LIM as int, M4_LIM as int);
    lemma_mul_bound(a.y as int, t.y as int, M4_LIM as int, M4_LIM as int);
    lemma_mul_bound(a.z as int, t.z as int, M4_LIM as int, M4_LIM as int);
    lemma_fx_mul_bound(a.x as int, t.x as int, M4_LIM as int, M4_LIM as int);
    lemma_fx_mul_bound(a.y as int, t.y as int, M4_LIM as int, M4_LIM as int);
    lemma_fx_mul_bound(a.z as int, t.z as int, M4_LIM as int, M4_LIM as int);
    assert(tdiv((M4_LIM as int) * (M4_LIM as int), FX_ONE as int) == 0x1000_0000_0000_0000int);
}

/// A four-term fixed-point dot product.
pub open spec fn spec_fx_dot4(
    a0: int,
    b0: int,
    a1: int,
    b1: int,
    a2: int,
    b2: int,
    a3: int,
    b3: int,
) -> int {
    spec_fx_mul(a0, b0) + spec_fx_mul(a1, b1) + spec_fx_mul(a2, b2) + spec_fx_mul(a3, b3)
}

/// One entry of a matrix product.
fn fx_dot4(a0: i64, b0: i64, a1: i64, b1: i64, a2: i64, b2: i64, a3: i64, b3: i64) -> (r: i64)
    requires
        -M4_LIM <= a0 <= M4_LIM,
        -M4_LIM <= a1 <= M4_LIM,
        -M4_LIM <= a2 <= M4_LIM,
        -M4_LIM <= a3 <= M4_LIM,
        -M4_LIM <= b0 <= M4_LIM,
        -M4_LIM <= b1 <= M4_LIM,
        -M4_LIM <= b2 <= M4_LIM,
        -M4_LIM <= b3 <= M4_LIM,
    ensures
        r == spec_fx_dot4(
            a0 as int,
            b0 as int,
            a1 as int,
            b1 as int,
            a2 as int,
            b2 as int,
            a3 as int,
            b3 as int,
        ),
{
    proof {
        lemma_mul_bound(a0 as int, b0 as int, M4_LIM as int, M4_LIM as int);
        lemma_mul_bound(a1 as int, b1 as int, M4_LIM as int, M4_LIM as int);
        lemma_mul_bound(a2 as int, b2 as int, M4_LIM as int, M4_LIM as int);
        lemma_mul_bound(a3 as int, b3 as int, M4_LIM as int, M4_LIM as int);
        lemma_fx_mul_bound(a0 as int, b0 as int, M4_LIM as int, M4_LIM as int);
        lemma_fx_mul_bound(a1 as int, b1 as int, M4_LIM as int, M4_LIM as int);
        lemma_fx_mul_bound(a2 as int, b2 as int, M4_LIM as int, M4_LIM as int);
        lemma_fx_mul_bound(a3 as int, b3 as int, M4_LIM as int, M4_LIM as int);
        assert(tdiv((M4_LIM as int) * (M4_LIM as int), FX_ONE as int)
            == 0x1000_0000_0000_0000int);
    }
    fx_mul(a0, b0) + fx_mul(a1, b1) + fx_mul(a2, b2) + fx_mul(a3, b3)
}

/// The fixed-point matrix product: entry (row, col) is the dot product of
/// the row of `a` with the column of `b`.
pub open spec fn spec_mul4(a: Mat4Fx, b: Mat4Fx) -> Mat4Fx {
    Mat4Fx {
        c0: spec_mul4_col(a, b.c0),
        c1: spec_mul4_col(a, b.c1),
        c2: spec_mul4_col(a, b.c2),
        c3: spec_mul4_col(a, b.c3),
    }
}

/// One column of a matrix product: `a` applied to the column vector.
pub open spec fn spec_mul4_col(a: Mat4Fx, v: Vec4Fx) -> Vec4Fx {
    Vec4Fx {
        x: spec_fx_dot4(
            a.c0.x as int,
            v.x as int,
            a.c1.x as int,
            v.y as int,
            a.c2.x as int,
            v.z as int,
            a.c3.x as int,
            v.w as int,
        ) as i64,
        y: spec_fx_dot4(
            a.c0.y as int,
            v.x as int,
            a.c1.y as int,
            v.y as int,
            a.c2.y as int,
            v.z as int,
            a.c3.y as int,
            v.w as int,
        ) as i64,
        z: spec_fx_dot4(
            a.c0.z as int,
            v.x as int,
            a.c1.z as int,
            v.y as int,
            a.c2.z as int,
            v.z as int,
            a.c3.z as int,
            v.w as int,
        ) as i64,
        w: spec_fx_dot4(
            a.c0.w as int,
            v.x as int,
            a.c1.w as int,
            v.y as int,
            a.c2.w as int,
            v.z as int,
            a.c3.w as int,
            v.w as int,
        ) as i64,
    }
}

fn mul4_col(a: &Mat4Fx, v: Vec4Fx) -> (r: Vec4Fx)
    requires
        m4_bounded(*a, M4_LIM as int),
        v4_bounded(v, M4_LIM as int),
    ensures
        r == spec_mul4_col(*a, v),
{
    Vec4Fx {
        x: fx_dot4(a.c0.x, v.x, a.c1.x, v.y, a.c2.x, v.z, a.c3.x, v.w),
        y: fx_dot4(a.c0.y, v.x, a.c1.y, v.y, a.c2.y, v.z, a.c3.y, v.w),
        z: fx_dot4(a.c0.z, v.x, a.c1.z, v.y, a.c2.z, v.z, a.c3.z, v.w),
        w: fx_dot4(a.c0.w, v.x, a.c1.w, v.y, a.c2.w, v.z, a.c3.w, v.w),
    }
}

/// Multiply two fixed-point matrices.
pub fn mul4(a: &Mat4Fx, b: &Mat4Fx) -> (r: Mat4Fx)
    requires
        m4_bounded(*a, M4_LIM as int),
        m4_bounded(*b, M4_LIM as int),
    ensures
        r == spec_mul4(*a, *b),
{
    Mat4Fx {
        c0: mul4_col(a, b.c0),
        c1: mul4_col(a, b.c1),
        c2: mul4_col(a, b.c2),
        c3: mul4_col(a, b.c3),
    }
}

/// The right-handed look-to view matrix: rows are the right, up and
/// negated forward directions of the orthonormalized frame, and the last
/// column carries the eye position expressed in that frame.
pub open spec fn spec_look_to(eye: Vec3Fx, dir: Vec3Fx, up: Vec3Fx) -> Mat4Fx {
    let f = dir.spec_normalize();
    let s = f.spec_cross(up).spec_normalize();
    let u = s.spec_cross(f);
    Mat4Fx {
        c0: Vec4Fx { x: s.x, y: u.x, z: (-(f.x as int)) as i64, w: 0 },
        c1: Vec4Fx { x: s.y, y: u.y, z: (-(f.y as int)) as i64, w: 0 },
        c2: Vec4Fx { x: s.z, y: u.z, z: (-(f.z as int)) as i64, w: 0 },
        c3: Vec4Fx {
            x: (-s.spec_dot(eye)) as i64,
            y: (-u.spec_dot(eye)) as i64,
            z: f.spec_dot(eye) as i64,
            w: FX_ONE,
        },
    }
}

/// Build the right-handed look-to view matrix.
pub fn look_to_rh(eye: Vec3Fx, dir: Vec3Fx, up: Vec3Fx) -> (r: Mat4Fx)
    requires
        vec3_bounded(eye, 0x2_0000_0000),
        vec3_bounded(dir, 0x4000_0000),
        vec3_bounded(up, 0x2_0000),
    ensures
        r == spec_look_to(eye, dir, up),
        m4_bounded(r, M4_LIM as int),
{
    proof {
        lemma_normalize_unit(dir);
    }
    let f: Vec3Fx = dir.normalize();
    let sr: Vec3Fx = f.cross(up);
    proof {
        lemma_normalize_unit(sr);
    }
    let s: Vec3Fx = sr.normalize();
    let u: Vec3Fx = s.cross(f);
    proof {
        lemma_fx_mul_bound(s.y as int, f.z as int, 0x2_0000, 0x2_0000);
        lemma_fx_mul_bound(s.z as int, f.y as int, 0x2_0000, 0x2_0000);
        lemma_fx_mul_bound(s.z as int, f.x as int, 0x2_0000, 0x2_0000);
        lemma_fx_mul_bound(s.x as int, f.z as int, 0x2_0000, 0x2_0000);
        lemma_fx_mul_bound(s.x as int, f.y as int, 0x2_0000, 0x2_0000);
        lemma_fx_mul_bound(s.y as int, f.x as int, 0x2_0000, 0x2_0000);
        assert(tdiv(0x2_0000int * 0x2_0000int, FX_ONE as int) == 0x4_0000int);
        assert(vec3_bounded(u, 0x8_0000));
    }
    let ds: i64 = s.dot(eye);
    let du: i64 = u.dot(eye);
    let df: i64 = f.dot(eye);
    proof {
        lemma_look_to_trans_bounds(s, eye);
        lemma_look_to_trans_bounds(u, eye);
        lemma_look_to_trans_bounds(f, eye);
    }
    Mat4Fx {
        c0: Vec4Fx { x: s.x, y: u.x, z: -f.x, w: 0 },
        c1: Vec4Fx { x: s.y, y: u.y, z: -f.y, w: 0 },
        c2: Vec4Fx { x: s.z, y: u.z, z: -f.z, w: 0 },
        c3: Vec4Fx { x: -ds, y: -du, z: df, w: FX_ONE },
    }
}

/// The translation entries of a look-to matrix are small enough for the
/// matrix product.
proof fn lemma_look_to_trans_bounds(d: Vec3Fx, eye: Vec3Fx)
    requires
        vec3_bounded(d, 0x8_0000),
        vec3_bounded(eye, 0x2_0000_0000),
    ensures
        -M4_LIM < d.spec_dot(eye) < M4_LIM,
{
    lemma_mul_bound(d.x as int, eye.x as int, 0x8_0000, 0x2_0000_0000);
    lemma_mul_bound(d.y as int, eye.y as int, 0x8_0000, 0x2_0000_0000);
    lemma_mul_bound(d.z as int, eye.z as int, 0x8_0000, 0x2_0000_0000);
    lemma_fx_mul_bound(d.x as int, eye.x as int, 0x8_0000, 0x2_0000_0000);
    lemma_fx_mul_bound(d.y as int, eye.y as int, 0x8_0000, 0x2_0000_0000);
    lemma_fx_mul_bound(d.z as int, eye.z as int, 0x8_0000, 0x2_0000_0000);
    assert(tdiv(0x8_0000int * 0x2_0000_0000int, FX_ONE as int) == 0x10_0000_0000int);
}

/// The perspective parameters the projection functions accept. These are
/// machine limits of the fixed-point evaluation, not policy: the half-angle
/// sine must not round to a sliver (else the cotangent overflows), the
/// cotangent and the near-times-far product must not round to zero (they
/// are divisors of the closed-form inverse), the aspect ratio stays within
/// 1:256 and 256:1, and the depth planes stay within 1024 units and at
/// least one unit apart (else the depth-column quotients overflow).
pub open spec fn persp_wf(fovy: int, aspect: int, znear: int, zfar: int) -> bool {
    let half = tdiv(fovy, 2);
    let sinh = spec_sin_fx(half);
    let cot = spec_fx_div(spec_cos_fx(half), sinh);
    &&& 0 < fovy < 2 * PI_FX
    &&& sinh >= 16
    &&& cot != 0
    &&& 256 <= aspect <= 0x100_0000
    &&& -0x400_0000 <= znear <= 0x400_0000
    &&& -0x400_0000 <= zfar <= 0x400_0000
    &&& (znear - zfar >= FX_ONE || zfar - znear >= FX_ONE)
    &&& 2 * spec_fx_mul(zfar, znear) != 0
}

/// Half an angle, rounded toward zero.
pub open spec fn spec_half_angle(a: int) -> int {
    tdiv(a, 2)
}

fn half_angle(a: i64) -> (r: i64)
    ensures
        r == spec_half_angle(a as int),
{
    let neg: bool = a < 0;
    let m: u64 = if a >= 0 {
        a as u64
    } else {
        (-(a as i128)) as u64
    };
    let h: u64 = m / 2;
    proof {
        lemma_tdiv_shrinks(m as int, 2);
    }
    if neg {
        (-(h as i128)) as i64
    } else {
        h as i64
    }
}

/// The perspective projection matrix, OpenGL-style: with c the cotangent of
/// half the field of view, the diagonal carries c / aspect and c, the third
/// column maps depth into the clip range with (zfar + znear) / (znear -
/// zfar) and a -1 in the homogeneous row, and the last column carries
/// 2 * zfar * znear / (znear - zfar).
pub open spec fn spec_perspective(fovy: int, aspect: int, znear: int, zfar: int) -> Mat4Fx {
    let half = spec_half_angle(fovy);
    let cot = spec_fx_div(spec_cos_fx(half), spec_sin_fx(half));
    Mat4Fx {
        c0: Vec4Fx { x: spec_fx_div(cot, aspect) as i64, y: 0, z: 0, w: 0 },
        c1: Vec4Fx { x: 0, y: cot as i64, z: 0, w: 0 },
        c2: Vec4Fx {
            x: 0,
            y: 0,
            z: spec_fx_div(zfar + znear, znear - zfar) as i64,
            w: (-(FX_ONE as int)) as i64,
        },
        c3: Vec4Fx {
            x: 0,
            y: 0,
            z: spec_fx_div(2 * spec_fx_mul(zfar, znear), znear - zfar) as i64,
            w: 0,
        },
    }
}

/// Build the perspective projection matrix.
pub fn perspective(fovy: i64, aspect: i64, znear: i64, zfar: i64) -> (r: Mat4Fx)
    requires
        persp_wf(fovy as int, aspect as int, znear as int, zfar as int),
    ensures
        r == spec_perspective(fovy as int, aspect as int, znear as int, zfar as int),
        m4_bounded(r, M4_LIM as int),
{
    let half: i64 = half_angle(fovy);
    proof {
        lemma_tdiv_shrinks(fovy as int, 2);
    }
    let sinh: i64 = sin_fx(half);
    let cosh: i64 = cos_fx(half);
    let cot: i64 = fx_div(cosh, sinh);
    proof {
        lemma_fx_div_denom_bound(cosh as int, sinh as int, 16, 0x1000_0000);
    }
    let c0x: i64 = fx_div(cot, aspect);
    proof {
        lemma_fx_div_denom_bound(cot as int, aspect as int, 256, 0x10_0000_0000);
    }
    let dz: i64 = znear - zfar;
    let c2z: i64 = fx_div(zfar + znear, dz);
    proof {
        lemma_fx_div_denom_bound((zfar + znear) as int, dz as int, FX_ONE as int, 0x800_0000);
    }
    proof {
        lemma_mul_bound(zfar as int, znear as int, 0x400_0000, 0x400_0000);
        lemma_fx_mul_bound(zfar as int, znear as int, 0x400_0000, 0x400_0000);
        assert(tdiv(0x400_0000int * 0x400_0000int, FX_ONE as int) == 0x10_0000_0000int);
    }
    let q2: i64 = 2 * fx_mul(zfar, znear);
    let c3z: i64 = fx_div(q2, dz);
    proof {
        lemma_fx_div_denom_bound(q2 as int, dz as int, FX_ONE as int, 0x20_0000_0000);
    }
    Mat4Fx {
        c0: Vec4Fx { x: c0x, y: 0, z: 0, w: 0 },
        c1: Vec4Fx { x: 0, y: cot, z: 0, w: 0 },
        c2: Vec4Fx { x: 0, y: 0, z: c2z, w: -FX_ONE },
        c3: Vec4Fx { x: 0, y: 0, z: c3z, w: 0 },
    }
}

/// The closed-form inverse of the perspective matrix: the reciprocal
/// diagonal, and the depth block exchanged so that the homogeneous row
/// moves to the third column: entries (znear - zfar) / (2 zfar znear), -1,
/// and (zfar + znear) / (2 zfar znear).
pub open spec fn spec_perspective_inv(fovy: int, aspect: int, znear: int, zfar: int) -> Mat4Fx {
    let half = spec_half_angle(fovy);
    let cot = spec_fx_div(spec_cos_fx(half), spec_sin_fx(half));
    let two_q = 2 * spec_fx_mul(zfar, znear);
    Mat4Fx {
        c0: Vec4Fx { x: spec_fx_div(aspect, cot) as i64, y: 0, z: 0, w: 0 },
        c1: Vec4Fx { x: 0, y: spec_fx_div(FX_ONE as int, cot) as i64, z: 0, w: 0 },
        c2: Vec4Fx { x: 0, y: 0, z: 0, w: spec_fx_div(znear - zfar, two_q) as i64 },
        c3: Vec4Fx {
            x: 0,
            y: 0,
            z: (-(FX_ONE as int)) as i64,
            w: spec_fx_div(zfar + znear, two_q) as i64,
        },
    }
}

/// Build the closed-form inverse of the perspective matrix.
pub fn perspective_inverse(fovy: i64, aspect: i64, znear: i64, zfar: i64) -> (r: Mat4Fx)
    requires
        persp_wf(fovy as int, aspect as int, znear as int, zfar as int),
    ensures
        r == spec_perspective_inv(fovy as int, aspect as int, znear as int, zfar as int),
{
    let half: i64 = half_angle(fovy);
    proof {
        lemma_tdiv_shrinks(fovy as int, 2);
    }
    let sinh: i64 = sin_fx(half);
    let cosh: i64 = cos_fx(half);
    let cot: i64 = fx_div(cosh, sinh);
    proof {
        lemma_fx_div_denom_bound(cosh as int, sinh as int, 16, 0x1000_0000);
    }
    let i00: i64 = fx_div(aspect, cot);
    proof {
        lemma_fx_div_denom_bound(aspect as int, cot as int, 1, 0x100_0000_0000);
    }
    let i11: i64 = fx_div(FX_ONE, cot);
    proof {
        lemma_fx_div_denom_bound(FX_ONE as int, cot as int, 1, 0x1_0000_0000);
    }
    proof {
        lemma_mul_bound(zfar as int, znear as int, 0x400_0000, 0x400_0000);
        lemma_fx_mul_bound(zfar as int, znear as int, 0x400_0000, 0x400_0000);
        assert(tdiv(0x400_0000int * 0x400_0000int, FX_ONE as int) == 0x10_0000_0000int);
    }
    let two_q: i64 = 2 * fx_mul(zfar, znear);
    let i2w: i64 = fx_div(znear - zfar, two_q);
    proof {
        lemma_fx_div_denom_bound((znear - zfar) as int, two_q as int, 1, 0x800_0000_0000);
    }
    let i3w: i64 = fx_div(zfar + znear, two_q);
    proof {
        lemma_fx_div_denom_bound((zfar + znear) as int, two_q as int, 1, 0x800_0000_0000);
    }
    Mat4Fx {
        c0: Vec4Fx { x: i00, y: 0, z: 0, w: 0 },
        c1: Vec4Fx { x: 0, y: i11, z: 0, w: 0 },
        c2: Vec4Fx { x: 0, y: 0, z: 0, w: i2w },
        c3: Vec4Fx { x: 0, y: 0, z: -FX_ONE, w: i3w },
    }
}

/// The sixteen entries of a matrix in the order the GPU record carries
/// them: column-major, column by column.
pub open spec fn spec_m4_values(m: Mat4Fx) -> Seq<i64> {
    seq![
        m.c0.x,
        m.c0.y,
        m.c0.z,
        m.c0.w,
        m.c1.x,
        m.c1.y,
        m.c1.z,
        m.c1.w,
        m.c2.x,
        m.c2.y,
        m.c2.z,
        m.c2.w,
        m.c3.x,
        m.c3.y,
        m.c3.z,
        m.c3.w,
    ]
}

/// Append the column-major entries of `m` to `out`.
pub fn push_m4_values(out: &mut Vec<i64>, m: &Mat4Fx)
    ensures
        final(out)@ == old(out)@ + spec_m4_values(*m),
{
    out.push(m.c0.x);
    out.push(m.c0.y);
    out.push(m.c0.z);
    out.push(m.c0.w);
    out.push(m.c1.x);
    out.push(m.c1.y);
    out.push(m.c1.z);
    out.push(m.c1.w);
    out.push(m.c2.x);
    out.push(m.c2.y);
    out.push(m.c2.z);
    out.push(m.c2.w);
    out.push(m.c3.x);
    out.push(m.c3.y);
    out.push(m.c3.z);
    out.push(m.c3.w);
    proof {
        assert(out@ =~= old(out)@ + spec_m4_values(*m));
    }
}

} // verus!
