//! Model geometry: vertices carrying a tangent-space basis for normal
//! mapping.
//!
//! For each triangle the tangent and bitangent solve the 2-by-2 linear
//! system relating its object-space edges to its texture-space edges:
//! with edges dP1, dP2 and texture edges dUV1, dUV2, and
//! r = 1 / (dUV1.x * dUV2.y - dUV1.y * dUV2.x),
//! tangent = (dP1 * dUV2.y - dP2 * dUV1.y) * r and
//! bitangent = (dP2 * dUV1.x - dP1 * dUV2.x) * (-r).
//! Contributions are accumulated per vertex over all adjacent triangles and
//! averaged by the count of contributing triangles. A triangle whose UV
//! determinant is zero has no solution; it is skipped and counted, so a
//! caller can report the degraded mesh instead of propagating invalid
//! numbers.

use vstd::prelude::*;

verus! {

use crate::fixed::{
    FX_ONE,
    Vec3Fx,
    fx_mul,
    fx_div,
    spec_fx_mul,
    spec_fx_div,
    tdiv,
    lemma_mul_bound,
    lemma_fx_mul_bound,
    lemma_fx_div_bound,
    lemma_fx_mul_zero,
    lemma_tdiv_shrinks,
    lemma_mul_div_exact,
};
use vstd::arithmetic::div_mod::lemma_div_is_ordered;

/// Largest coordinate magnitude (positions and texture coordinates) the
/// geometry builder accepts.
pub const COORD_LIM: i64 = 0x1000_0000;

/// Largest magnitude of one triangle's tangent or bitangent component.
pub const TB_LIM: i64 = 0x800_0000_0000_0000;

/// A 2-vector of fixed-point scalars (texture coordinates).
#[derive(Clone, Copy, Debug, PartialEq, Eq, Structural)]
pub struct Vec2Fx {
    pub x: i64,
    pub y: i64,
}

/// One vertex of a mesh, with the tangent-space basis used for normal
/// mapping.
#[derive(Clone, Copy, Debug, PartialEq, Eq, Structural)]
pub struct ModelVertex {
    pub position: Vec3Fx,
    pub tex_coords: Vec2Fx,
    pub normal: Vec3Fx,
    pub tangent: Vec3Fx,
    pub bitangent: Vec3Fx,
}

/// The accumulated tangent and bitangent contributions of the triangles
/// adjacent to one vertex, and how many triangles contributed.
#[derive(Clone, Copy, Debug, PartialEq, Eq, Structural)]
pub struct TbAcc {
    pub tx: i128,
    pub ty: i128,
    pub tz: i128,
    pub bx: i128,
    pub by: i128,
    pub bz: i128,
    pub n: u64,
}

/// How building mesh geometry can fail.
#[derive(Clone, Copy, Debug, PartialEq, Eq, Structural)]
pub enum GeometryError {
    /// Too few texture coordinates or normals for the vertex count.
    Attributes,
    /// The index list is not whole triangles.
    IndexCount,
    /// An index points past the vertex list.
    IndexRange,
}

/// The vertices, with their tangent basis, and the count of triangles whose
/// degenerate UV mapping had to be skipped.
#[derive(Debug)]
pub struct MeshGeometry {
    pub vertices: Vec<ModelVertex>,
    pub degenerate_triangles: usize,
}

/// The number of whole vertices the flat position array describes.
pub open spec fn spec_vertex_count(positions: Seq<i64>) -> int {
    positions.len() as int / 3
}

/// There are enough texture coordinates and normals for every vertex.
pub open spec fn mesh_attrs_ok(positions: Seq<i64>, texcoords: Seq<i64>, normals: Seq<i64>) -> bool {
    &&& texcoords.len() >= 2 * spec_vertex_count(positions)
    &&& normals.len() >= 3 * spec_vertex_count(positions)
}

/// The index list forms whole triangles of valid vertex indices.
pub open spec fn mesh_indices_ok(indices: Seq<u32>, nv: int) -> bool {
    &&& indices.len() % 3 == 0
    &&& forall|k: int| 0 <= k < indices.len() ==> (#[trigger] indices[k]) < nv
}

/// Every position and texture coordinate is within the builder's range.
pub open spec fn coords_ok(positions: Seq<i64>, texcoords: Seq<i64>) -> bool {
    &&& forall|j: int| 0 <= j < positions.len() ==> -COORD_LIM <= #[trigger] positions[j] <= COORD_LIM
    &&& forall|j: int| 0 <= j < texcoords.len() ==> -COORD_LIM <= #[trigger] texcoords[j] <= COORD_LIM
}

/// The u texture coordinate of vertex `i`.
pub open spec fn uv_u(texcoords: Seq<i64>, i: int) -> int {
    texcoords[2 * i] as int
}

/// The v texture coordinate of vertex `i`.
pub open spec fn uv_v(texcoords: Seq<i64>, i: int) -> int {
    texcoords[2 * i + 1] as int
}

/// One coordinate (axis 0, 1 or 2) of vertex `i`'s position.
pub open spec fn pos_c(positions: Seq<i64>, i: int, axis: int) -> int {
    positions[3 * i + axis] as int
}

/// The UV determinant of a triangle: dUV1.x * dUV2.y - dUV1.y * dUV2.x, in
/// fixed point.
pub open spec fn spec_tri_det(texcoords: Seq<i64>, i0: int, i1: int, i2: int) -> int {
    spec_fx_mul(uv_u(texcoords, i1) - uv_u(texcoords, i0), uv_v(texcoords, i2) - uv_v(texcoords, i0))
        - spec_fx_mul(
        uv_v(texcoords, i1) - uv_v(texcoords, i0),
        uv_u(texcoords, i2) - uv_u(texcoords, i0),
    )
}

/// One component of a triangle's tangent.
pub open spec fn spec_tan_comp(dp1: int, dp2: int, dv1: int, dv2: int, r: int) -> int {
    spec_fx_mul(spec_fx_mul(dp1, dv2) - spec_fx_mul(dp2, dv1), r)
}

/// One component of a triangle's bitangent.
pub open spec fn spec_bitan_comp(dp1: int, dp2: int, du1: int, du2: int, r: int) -> int {
    spec_fx_mul(spec_fx_mul(dp2, du1) - spec_fx_mul(dp1, du2), -r)
}

/// An all-zero accumulator.
pub open spec fn spec_tb_zero() -> TbAcc {
    TbAcc { tx: 0, ty: 0, tz: 0, bx: 0, by: 0, bz: 0, n: 0 }
}

/// One triangle's contribution added into one vertex's accumulator.
pub open spec fn spec_tb_add(
    a: TbAcc,
    tx: int,
    ty: int,
    tz: int,
    bx: int,
    by: int,
    bz: int,
) -> TbAcc {
    TbAcc {
        tx: (a.tx + tx) as i128,
        ty: (a.ty + ty) as i128,
        tz: (a.tz + tz) as i128,
        bx: (a.bx + bx) as i128,
        by: (a.by + by) as i128,
        bz: (a.bz + bz) as i128,
        n: (a.n + 1) as u64,
    }
}

/// The tangent component of triangle (i0, i1, i2) along `axis`, given the
/// inverse determinant `r`.
pub open spec fn spec_tri_tan(
    positions: Seq<i64>,
    texcoords: Seq<i64>,
    i0: int,
    i1: int,
    i2: int,
    axis: int,
    r: int,
) -> int {
    spec_tan_comp(
        pos_c(positions, i1, axis) - pos_c(positions, i0, axis),
        pos_c(positions, i2, axis) - pos_c(positions, i0, axis),
        uv_v(texcoords, i1) - uv_v(texcoords, i0),
        uv_v(texcoords, i2) - uv_v(texcoords, i0),
        r,
    )
}

/// The bitangent component of triangle (i0, i1, i2) along `axis`.
pub open spec fn spec_tri_bitan(
    positions: Seq<i64>,
    texcoords: Seq<i64>,
    i0: int,
    i1: int,
    i2: int,
    axis: int,
    r: int,
) -> int {
    spec_bitan_comp(
        pos_c(positions, i1, axis) - pos_c(positions, i0, axis),
        pos_c(positions, i2, axis) - pos_c(positions, i0, axis),
        uv_u(texcoords, i1) - uv_u(texcoords, i0),
        uv_u(texcoords, i2) - uv_u(texcoords, i0),
        r,
    )
}

/// The accumulator state after one triangle is applied: unchanged when the
/// UV determinant is zero, otherwise the contribution added into each of
/// the triangle's three corners in order.
pub open spec fn spec_tri_apply(
    state: Seq<TbAcc>,
    positions: Seq<i64>,
    texcoords: Seq<i64>,
    i0: int,
    i1: int,
    i2: int,
) -> Seq<TbAcc> {
    let det = spec_tri_det(texcoords, i0, i1, i2);
    if det == 0 {
        state
    } else {
        let r = spec_fx_div(FX_ONE as int, det);
        let tx = spec_tri_tan(positions, texcoords, i0, i1, i2, 0, r);
        let ty = spec_tri_tan(positions, texcoords, i0, i1, i2, 1, r);
        let tz = spec_tri_tan(positions, texcoords, i0, i1, i2, 2, r);
        let bx = spec_tri_bitan(positions, texcoords, i0, i1, i2, 0, r);
        let by = spec_tri_bitan(positions, texcoords, i0, i1, i2, 1, r);
        let bz = spec_tri_bitan(positions, texcoords, i0, i1, i2, 2, r);
        let s0 = state.update(i0, spec_tb_add(state[i0], tx, ty, tz, bx, by, bz));
        let s1 = s0.update(i1, spec_tb_add(s0[i1], tx, ty, tz, bx, by, bz));
        s1.update(i2, spec_tb_add(s1[i2], tx, ty, tz, bx, by, bz))
    }
}

/// The accumulator state after the first `t` triangles.
pub open spec fn spec_tb_state(
    positions: Seq<i64>,
    texcoords: Seq<i64>,
    indices: Seq<u32>,
    nv: int,
    t: int,
) -> Seq<TbAcc>
    decreases t,
{
    if t <= 0 {
        Seq::new(nv as nat, |i: int| spec_tb_zero())
    } else {
        spec_tri_apply(
            spec_tb_state(positions, texcoords, indices, nv, t - 1),
            positions,
            texcoords,
            indices[3 * (t - 1)] as int,
            indices[3 * (t - 1) + 1] as int,
            indices[3 * (t - 1) + 2] as int,
        )
    }
}

/// How many of the first `t` triangles have a degenerate UV mapping.
pub open spec fn spec_degenerate_count(texcoords: Seq<i64>, indices: Seq<u32>, t: int) -> int
    decreases t,
{
    if t <= 0 {
        0
    } else {
        spec_degenerate_count(texcoords, indices, t - 1) + if spec_tri_det(
            texcoords,
            indices[3 * (t - 1)] as int,
            indices[3 * (t - 1) + 1] as int,
            indices[3 * (t - 1) + 2] as int,
        ) == 0 {
            1int
        } else {
            0int
        }
    }
}

/// An accumulated component averaged by the count of contributing
/// triangles, rounded toward zero; zero when nothing contributed.
pub open spec fn spec_avg(a: int, n: int) -> int {
    if n <= 0 {
        0
    } else {
        tdiv(a, n)
    }
}

/// The finished vertex `i`: base attributes from the flat input arrays, the
/// tangent basis averaged from the accumulator.
pub open spec fn spec_built_vertex(
    positions: Seq<i64>,
    texcoords: Seq<i64>,
    normals: Seq<i64>,
    acc: TbAcc,
    i: int,
) -> ModelVertex {
    ModelVertex {
        position: Vec3Fx {
            x: positions[3 * i],
            y: positions[3 * i + 1],
            z: positions[3 * i + 2],
        },
        tex_coords: Vec2Fx { x: texcoords[2 * i], y: texcoords[2 * i + 1] },
        normal: Vec3Fx { x: normals[3 * i], y: normals[3 * i + 1], z: normals[3 * i + 2] },
        tangent: Vec3Fx {
            x: spec_avg(a_tx(acc), acc.n as int) as i64,
            y: spec_avg(a_ty(acc), acc.n as int) as i64,
            z: spec_avg(a_tz(acc), acc.n as int) as i64,
        },
        bitangent: Vec3Fx {
            x: spec_avg(acc.bx as int, acc.n as int) as i64,
            y: spec_avg(acc.by as int, acc.n as int) as i64,
            z: spec_avg(acc.bz as int, acc.n as int) as i64,
        },
    }
}

/// The accumulated tangent components, as mathematical integers.
pub open spec fn a_tx(acc: TbAcc) -> int {
    acc.tx as int
}

pub open spec fn a_ty(acc: TbAcc) -> int {
    acc.ty as int
}

pub open spec fn a_tz(acc: TbAcc) -> int {
    acc.tz as int
}

/// Every component of the accumulator is within `n` triangle contributions,
/// and at most `tmax` contributions have been made.
pub open spec fn tb_acc_ok(a: TbAcc, tmax: int) -> bool {
    &&& 0 <= a.n <= tmax
    &&& -(a.n * TB_LIM) <= a.tx <= a.n * TB_LIM
    &&& -(a.n * TB_LIM) <= a.ty <= a.n * TB_LIM
    &&& -(a.n * TB_LIM) <= a.tz <= a.n * TB_LIM
    &&& -(a.n * TB_LIM) <= a.bx <= a.n * TB_LIM
    &&& -(a.n * TB_LIM) <= a.by <= a.n * TB_LIM
    &&& -(a.n * TB_LIM) <= a.bz <= a.n * TB_LIM
}

/// One triangle's tangent and bitangent components are bounded by TB_LIM.
proof fn lemma_tri_comps_bounded(
    positions: Seq<i64>,
    texcoords: Seq<i64>,
    nv: int,
    i0: int,
    i1: int,
    i2: int,
    axis: int,
    r: int,
)
    requires
        coords_ok(positions, texcoords),
        0 <= i0 < nv,
        0 <= i1 < nv,
        0 <= i2 < nv,
        3 * nv <= positions.len(),
        2 * nv <= texcoords.len(),
        0 <= axis < 3,
        -0x1_0000_0000 <= r <= 0x1_0000_0000,
    ensures
        -TB_LIM <= spec_tri_tan(positions, texcoords, i0, i1, i2, axis, r) <= TB_LIM,
        -TB_LIM <= spec_tri_bitan(positions, texcoords, i0, i1, i2, axis, r) <= TB_LIM,
{
    let dp1 = pos_c(positions, i1, axis) - pos_c(positions, i0, axis);
    let dp2 = pos_c(positions, i2, axis) - pos_c(positions, i0, axis);
    let du1 = uv_u(texcoords, i1) - uv_u(texcoords, i0);
    let du2 = uv_u(texcoords, i2) - uv_u(texcoords, i0);
    let dv1 = uv_v(texcoords, i1) - uv_v(texcoords, i0);
    let dv2 = uv_v(texcoords, i2) - uv_v(texcoords, i0);
    lemma_fx_mul_bound(dp1, dv2, 0x2000_0000, 0x2000_0000);
    lemma_fx_mul_bound(dp2, dv1, 0x2000_0000, 0x2000_0000);
    lemma_fx_mul_bound(dp2, du1, 0x2000_0000, 0x2000_0000);
    lemma_fx_mul_bound(dp1, du2, 0x2000_0000, 0x2000_0000);
    assert(tdiv(0x2000_0000int * 0x2000_0000int, FX_ONE as int) == 0x400_0000_0000int);
    lemma_fx_mul_bound(
        spec_fx_mul(dp1, dv2) - spec_fx_mul(dp2, dv1),
        r,
        0x800_0000_0000,
        0x1_0000_0000,
    );
    lemma_fx_mul_bound(
        spec_fx_mul(dp2, du1) - spec_fx_mul(dp1, du2),
        -r,
        0x800_0000_0000,
        0x1_0000_0000,
    );
    assert(tdiv(0x800_0000_0000int * 0x1_0000_0000int, FX_ONE as int) == TB_LIM as int);
}

/// A bounded accumulator stays bounded when one bounded contribution is
/// added.
proof fn lemma_tb_add_step(a: TbAcc, tx: int, ty: int, tz: int, bx: int, by: int, bz: int, m: int)
    requires
        tb_acc_ok(a, m),
        0 <= m <= 0x7000_0000_0000_0000,
        -TB_LIM <= tx <= TB_LIM,
        -TB_LIM <= ty <= TB_LIM,
        -TB_LIM <= tz <= TB_LIM,
        -TB_LIM <= bx <= TB_LIM,
        -TB_LIM <= by <= TB_LIM,
        -TB_LIM <= bz <= TB_LIM,
    ensures
        tb_acc_ok(spec_tb_add(a, tx, ty, tz, bx, by, bz), m + 1),
{
    let n = a.n as int;
    assert((n + 1) * TB_LIM == n * TB_LIM + TB_LIM) by (nonlinear_arith);
    assert(n * TB_LIM <= 0x7000_0000_0000_0000 * (TB_LIM as int)) by (nonlinear_arith)
        requires
            0 <= n <= 0x7000_0000_0000_0000,
    ;
}

/// tb_acc_ok is monotone in the contribution budget.
proof fn lemma_tb_ok_monotone(a: TbAcc, m1: int, m2: int)
    requires
        tb_acc_ok(a, m1),
        m1 <= m2,
    ensures
        tb_acc_ok(a, m2),
{
}

/// Updating one entry with one bounded contribution keeps every entry
/// bounded, with the budget raised by one.
proof fn lemma_tb_update_all(
    state: Seq<TbAcc>,
    i: int,
    tx: int,
    ty: int,
    tz: int,
    bx: int,
    by: int,
    bz: int,
    m: int,
)
    requires
        0 <= i < state.len(),
        0 <= m <= 0x7000_0000_0000_0000,
        forall|w: int| 0 <= w < state.len() ==> tb_acc_ok(#[trigger] state[w], m),
        -TB_LIM <= tx <= TB_LIM,
        -TB_LIM <= ty <= TB_LIM,
        -TB_LIM <= tz <= TB_LIM,
        -TB_LIM <= bx <= TB_LIM,
        -TB_LIM <= by <= TB_LIM,
        -TB_LIM <= bz <= TB_LIM,
    ensures
        forall|w: int|
            0 <= w < state.len() ==> tb_acc_ok(
                #[trigger] state.update(i, spec_tb_add(state[i], tx, ty, tz, bx, by, bz))[w],
                m + 1,
            ),
{
    lemma_tb_add_step(state[i], tx, ty, tz, bx, by, bz, m);
    let s = state.update(i, spec_tb_add(state[i], tx, ty, tz, bx, by, bz));
    assert forall|w: int| 0 <= w < state.len() implies tb_acc_ok(#[trigger] s[w], m + 1) by {
        if w != i {
            lemma_tb_ok_monotone(state[w], m, m + 1);
        }
    }
}

/// After `t` triangles every accumulator is well bounded: at most 3 t
/// contributions in all, each within one triangle's component bound.
proof fn lemma_tb_state_ok(
    positions: Seq<i64>,
    texcoords: Seq<i64>,
    indices: Seq<u32>,
    nv: int,
    t: int,
)
    requires
        coords_ok(positions, texcoords),
        mesh_indices_ok(indices, nv),
        3 * nv <= positions.len(),
        2 * nv <= texcoords.len(),
        0 <= t,
        3 * t <= indices.len(),
        indices.len() <= 0x2000_0000_0000_0000,
    ensures
        spec_tb_state(positions, texcoords, indices, nv, t).len() == nv || nv < 0,
        forall|v: int|
            0 <= v < nv ==> tb_acc_ok(
                #[trigger] spec_tb_state(positions, texcoords, indices, nv, t)[v],
                3 * t,
            ),
    decreases t,
{
    if t <= 0 {
    } else {
        lemma_tb_state_ok(positions, texcoords, indices, nv, t - 1);
        let prev = spec_tb_state(positions, texcoords, indices, nv, t - 1);
        let s = spec_tb_state(positions, texcoords, indices, nv, t);
        let i0 = indices[3 * (t - 1)] as int;
        let i1 = indices[3 * (t - 1) + 1] as int;
        let i2 = indices[3 * (t - 1) + 2] as int;
        assert(0 <= 3 * (t - 1) < indices.len() && 0 <= 3 * (t - 1) + 1 < indices.len() && 0 <= 3
            * (t - 1) + 2 < indices.len());
        assert(0 <= i0 < nv && 0 <= i1 < nv && 0 <= i2 < nv);
        let det = spec_tri_det(texcoords, i0, i1, i2);
        if det == 0 {
            assert(s == prev);
            assert forall|v: int| 0 <= v < nv implies tb_acc_ok(#[trigger] s[v], 3 * t) by {
                lemma_tb_ok_monotone(prev[v], 3 * (t - 1), 3 * t);
            }
        } else {
            let r = spec_fx_div(FX_ONE as int, det);
            lemma_fx_div_bound(FX_ONE as int, det);
            lemma_tri_comps_bounded(positions, texcoords, nv, i0, i1, i2, 0, r);
            lemma_tri_comps_bounded(positions, texcoords, nv, i0, i1, i2, 1, r);
            lemma_tri_comps_bounded(positions, texcoords, nv, i0, i1, i2, 2, r);
            let tx = spec_tri_tan(positions, texcoords, i0, i1, i2, 0, r);
            let ty = spec_tri_tan(positions, texcoords, i0, i1, i2, 1, r);
            let tz = spec_tri_tan(positions, texcoords, i0, i1, i2, 2, r);
            let bx = spec_tri_bitan(positions, texcoords, i0, i1, i2, 0, r);
            let by = spec_tri_bitan(positions, texcoords, i0, i1, i2, 1, r);
            let bz = spec_tri_bitan(positions, texcoords, i0, i1, i2, 2, r);
            let s0 = prev.update(i0, spec_tb_add(prev[i0], tx, ty, tz, bx, by, bz));
            let s1 = s0.update(i1, spec_tb_add(s0[i1], tx, ty, tz, bx, by, bz));
            lemma_tb_update_all(prev, i0, tx, ty, tz, bx, by, bz, 3 * (t - 1));
            lemma_tb_update_all(s0, i1, tx, ty, tz, bx, by, bz, 3 * (t - 1) + 1);
            lemma_tb_update_all(s1, i2, tx, ty, tz, bx, by, bz, 3 * (t - 1) + 2);
            assert(s == s1.update(i2, spec_tb_add(s1[i2], tx, ty, tz, bx, by, bz)));
        }
    }
}

/// One accumulated component averaged by its contribution count.
fn avg_comp(a: i128, n: u64) -> (r: i64)
    requires
        -((n as int) * (TB_LIM as int)) <= a <= (n as int) * (TB_LIM as int),
    ensures
        r == spec_avg(a as int, n as int),
        -TB_LIM <= r <= TB_LIM,
{
    if n == 0 {
        0
    } else {
        let neg: bool = a < 0;
        let ua: u128 = if a >= 0 {
            a as u128
        } else {
            (-a) as u128
        };
        let q: u128 = ua / (n as u128);
        proof {
            lemma_div_is_ordered(ua as int, (n as int) * (TB_LIM as int), n as int);
            lemma_mul_div_exact(TB_LIM as int, n as int);
            assert((n as int) * (TB_LIM as int) == (TB_LIM as int) * (n as int))
                by (nonlinear_arith);
            assert(a >= 0 ==> ua == a);
            assert(a < 0 ==> ua as int == -(a as int));
        }
        if neg {
            (-(q as i128)) as i64
        } else {
            q as i64
        }
    }
}

/// Build the finished vertices of one mesh from the flat attribute arrays
/// the geometry parser hands over, computing the per-vertex tangent basis:
/// every triangle's tangent and bitangent are accumulated into its three
/// corners and averaged by the count of contributing triangles. Triangles
/// with a degenerate UV mapping are skipped and counted, so the caller can
/// report the mesh as degraded.
#[verifier::rlimit(100)]
pub fn build_mesh_vertices(
    positions: &Vec<i64>,
    texcoords: &Vec<i64>,
    normals: &Vec<i64>,
    indices: &Vec<u32>,
) -> (r: Result<MeshGeometry, GeometryError>)
    requires
        coords_ok(positions@, texcoords@),
        indices@.len() <= 0x2000_0000_0000_0000,
    ensures
        ({
            let nv = spec_vertex_count(positions@);
            let tris = indices@.len() as int / 3;
            match r {
                Result::Ok(m) => {
                    &&& mesh_attrs_ok(positions@, texcoords@, normals@)
                    &&& mesh_indices_ok(indices@, nv)
                    &&& m.vertices@.len() == nv
                    &&& (forall|i: int|
                        0 <= i < nv ==> #[trigger] m.vertices@[i] == spec_built_vertex(
                            positions@,
                            texcoords@,
                            normals@,
                            spec_tb_state(positions@, texcoords@, indices@, nv, tris)[i],
                            i,
                        ))
                    &&& m.degenerate_triangles == spec_degenerate_count(texcoords@, indices@, tris)
                },
                Result::Err(GeometryError::Attributes) => !mesh_attrs_ok(
                    positions@,
                    texcoords@,
                    normals@,
                ),
                Result::Err(GeometryError::IndexCount) => mesh_attrs_ok(
                    positions@,
                    texcoords@,
                    normals@,
                ) && indices@.len() % 3 != 0,
                Result::Err(GeometryError::IndexRange) => mesh_attrs_ok(
                    positions@,
                    texcoords@,
                    normals@,
                ) && indices@.len() % 3 == 0 && !mesh_indices_ok(indices@, nv),
            }
        }),
{
    let plen: usize = positions.len();
    let uvlen: usize = texcoords.len();
    let nmlen: usize = normals.len();
    let idxlen: usize = indices.len();
    let nv: usize = plen / 3;
    proof {
        vstd::arithmetic::div_mod::lemma_fundamental_div_mod(plen as int, 3);
        lemma_div_is_ordered(plen as int, usize::MAX as int, 3);
    }
    if (uvlen as u64) < 2 * (nv as u64) || (nmlen as u64) < 3 * (nv as u64) {
        return Result::Err(GeometryError::Attributes);
    }
    if idxlen % 3 != 0 {
        return Result::Err(GeometryError::IndexCount);
    }
    let mut k: usize = 0;
    while k < idxlen
        invariant
            idxlen == indices@.len(),
            nv == spec_vertex_count(positions@),
            mesh_attrs_ok(positions@, texcoords@, normals@),
            idxlen % 3 == 0,
            0 <= k <= idxlen,
            forall|j: int| 0 <= j < k ==> (#[trigger] indices@[j]) < nv,
        decreases idxlen - k,
    {
        if indices[k] as usize >= nv {
            proof {
                assert(!mesh_indices_ok(indices@, nv as int)) by {
                    assert(indices@[k as int] >= nv);
                }
            }
            return Result::Err(GeometryError::IndexRange);
        }
        k = k + 1;
    }
    let tris: usize = idxlen / 3;
    proof {
        vstd::arithmetic::div_mod::lemma_fundamental_div_mod(idxlen as int, 3);
    }
    let mut accs: Vec<TbAcc> = Vec::new();
    let mut i: usize = 0;
    while i < nv
        invariant
            0 <= i <= nv,
            accs@.len() == i,
            forall|j: int| 0 <= j < i ==> accs@[j] == spec_tb_zero(),
        decreases nv - i,
    {
        accs.push(TbAcc { tx: 0, ty: 0, tz: 0, bx: 0, by: 0, bz: 0, n: 0 });
        i = i + 1;
    }
    proof {
        assert(accs@ =~= spec_tb_state(positions@, texcoords@, indices@, nv as int, 0));
    }
    let mut deg: usize = 0;
    let mut t: usize = 0;
    while t < tris
        invariant
            coords_ok(positions@, texcoords@),
            mesh_indices_ok(indices@, nv as int),
            plen == positions@.len(),
            uvlen == texcoords@.len(),
            idxlen == indices@.len(),
            idxlen <= 0x2000_0000_0000_0000,
            nv == spec_vertex_count(positions@),
            3 * nv <= plen,
            2 * nv <= uvlen,
            tris == idxlen as int / 3,
            3 * tris == idxlen,
            0 <= t <= tris,
            accs@.len() == nv,
            accs@ == spec_tb_state(positions@, texcoords@, indices@, nv as int, t as int),
            deg <= t,
            deg == spec_degenerate_count(texcoords@, indices@, t as int),
        decreases tris - t,
    {
        proof {
            lemma_tb_state_ok(positions@, texcoords@, indices@, nv as int, t as int);
        }
        let i0u: usize = indices[3 * t] as usize;
        let i1u: usize = indices[3 * t + 1] as usize;
        let i2u: usize = indices[3 * t + 2] as usize;
        let ghost i0 = i0u as int;
        let ghost i1 = i1u as int;
        let ghost i2 = i2u as int;
        let u0: i64 = texcoords[2 * i0u];
        let v0: i64 = texcoords[2 * i0u + 1];
        let u1: i64 = texcoords[2 * i1u];
        let v1: i64 = texcoords[2 * i1u + 1];
        let u2: i64 = texcoords[2 * i2u];
        let v2: i64 = texcoords[2 * i2u + 1];
        let du1: i64 = u1 - u0;
        let dv1: i64 = v1 - v0;
        let du2: i64 = u2 - u0;
        let dv2: i64 = v2 - v0;
        proof {
            lemma_mul_bound(du1 as int, dv2 as int, 0x2000_0000, 0x2000_0000);
            lemma_mul_bound(dv1 as int, du2 as int, 0x2000_0000, 0x2000_0000);
            lemma_fx_mul_bound(du1 as int, dv2 as int, 0x2000_0000, 0x2000_0000);
            lemma_fx_mul_bound(dv1 as int, du2 as int, 0x2000_0000, 0x2000_0000);
            assert(tdiv(0x2000_0000int * 0x2000_0000int, FX_ONE as int) == 0x400_0000_0000int);
        }
        let det: i64 = fx_mul(du1, dv2) - fx_mul(dv1, du2);
        proof {
            assert(det == spec_tri_det(texcoords@, i0, i1, i2));
        }
        if det == 0 {
            deg = deg + 1;
            proof {
                assert(spec_tb_state(positions@, texcoords@, indices@, nv as int, t + 1)
                    == spec_tri_apply(accs@, positions@, texcoords@, i0, i1, i2));
                assert(spec_tri_apply(accs@, positions@, texcoords@, i0, i1, i2) == accs@);
                assert(spec_degenerate_count(texcoords@, indices@, t + 1)
                    == spec_degenerate_count(texcoords@, indices@, t as int) + 1);
            }
        } else {
            let rr: i64 = fx_div(FX_ONE, det);
            proof {
                lemma_fx_div_bound(FX_ONE as int, det as int);
                lemma_tri_comps_bounded(positions@, texcoords@, nv as int, i0, i1, i2, 0, rr as int);
                lemma_tri_comps_bounded(positions@, texcoords@, nv as int, i0, i1, i2, 1, rr as int);
                lemma_tri_comps_bounded(positions@, texcoords@, nv as int, i0, i1, i2, 2, rr as int);
            }
            let px0: i64 = positions[3 * i0u];
            let py0: i64 = positions[3 * i0u + 1];
            let pz0: i64 = positions[3 * i0u + 2];
            let px1: i64 = positions[3 * i1u];
            let py1: i64 = positions[3 * i1u + 1];
            let pz1: i64 = positions[3 * i1u + 2];
            let px2: i64 = positions[3 * i2u];
            let py2: i64 = positions[3 * i2u + 1];
            let pz2: i64 = positions[3 * i2u + 2];
            let dp1x: i64 = px1 - px0;
            let dp1y: i64 = py1 - py0;
            let dp1z: i64 = pz1 - pz0;
            let dp2x: i64 = px2 - px0;
            let dp2y: i64 = py2 - py0;
            let dp2z: i64 = pz2 - pz0;
            proof {
                lemma_mul_bound(dp1x as int, dv2 as int, 0x2000_0000, 0x2000_0000);
                lemma_mul_bound(dp1y as int, dv2 as int, 0x2000_0000, 0x2000_0000);
                lemma_mul_bound(dp1z as int, dv2 as int, 0x2000_0000, 0x2000_0000);
                lemma_mul_bound(dp2x as int, dv1 as int, 0x2000_0000, 0x2000_0000);
                lemma_mul_bound(dp2y as int, dv1 as int, 0x2000_0000, 0x2000_0000);
                lemma_mul_bound(dp2z as int, dv1 as int, 0x2000_0000, 0x2000_0000);
                lemma_mul_bound(dp1x as int, du2 as int, 0x2000_0000, 0x2000_0000);
                lemma_mul_bound(dp1y as int, du2 as int, 0x2000_0000, 0x2000_0000);
                lemma_mul_bound(dp1z as int, du2 as int, 0x2000_0000, 0x2000_0000);
                lemma_mul_bound(dp2x as int, du1 as int, 0x2000_0000, 0x2000_0000);
                lemma_mul_bound(dp2y as int, du1 as int, 0x2000_0000, 0x2000_0000);
                lemma_mul_bound(dp2z as int, du1 as int, 0x2000_0000, 0x2000_0000);
                lemma_fx_mul_bound(dp1x as int, dv2 as int, 0x2000_0000, 0x2000_0000);
                lemma_fx_mul_bound(dp1y as int, dv2 as int, 0x2000_0000, 0x2000_0000);
                lemma_fx_mul_bound(dp1z as int, dv2 as int, 0x2000_0000, 0x2000_0000);
                lemma_fx_mul_bound(dp2x as int, dv1 as int, 0x2000_0000, 0x2000_0000);
                lemma_fx_mul_bound(dp2y as int, dv1 as int, 0x2000_0000, 0x2000_0000);
                lemma_fx_mul_bound(dp2z as int, dv1 as int, 0x2000_0000, 0x2000_0000);
                lemma_fx_mul_bound(dp1x as int, du2 as int, 0x2000_0000, 0x2000_0000);
                lemma_fx_mul_bound(dp1y as int, du2 as int, 0x2000_0000, 0x2000_0000);
                lemma_fx_mul_bound(dp1z as int, du2 as int, 0x2000_0000, 0x2000_0000);
                lemma_fx_mul_bound(dp2x as int, du1 as int, 0x2000_0000, 0x2000_0000);
                lemma_fx_mul_bound(dp2y as int, du1 as int, 0x2000_0000, 0x2000_0000);
                lemma_fx_mul_bound(dp2z as int, du1 as int, 0x2000_0000, 0x2000_0000);
                lemma_mul_bound(
                    spec_fx_mul(dp1x as int, dv2 as int) - spec_fx_mul(dp2x as int, dv1 as int),
                    rr as int,
                    0x800_0000_0000,
                    0x1_0000_0000,
                );
                lemma_mul_bound(
                    spec_fx_mul(dp1y as int, dv2 as int) - spec_fx_mul(dp2y as int, dv1 as int),
                    rr as int,
                    0x800_0000_0000,
                    0x1_0000_0000,
                );
                lemma_mul_bound(
                    spec_fx_mul(dp1z as int, dv2 as int) - spec_fx_mul(dp2z as int, dv1 as int),
                    rr as int,
                    0x800_0000_0000,
                    0x1_0000_0000,
                );
                lemma_mul_bound(
                    spec_fx_mul(dp2x as int, du1 as int) - spec_fx_mul(dp1x as int, du2 as int),
                    -(rr as int),
                    0x800_0000_0000,
                    0x1_0000_0000,
                );
                lemma_mul_bound(
                    spec_fx_mul(dp2y as int, du1 as int) - spec_fx_mul(dp1y as int, du2 as int),
                    -(rr as int),
                    0x800_0000_0000,
                    0x1_0000_0000,
                );
                lemma_mul_bound(
                    spec_fx_mul(dp2z as int, du1 as int) - spec_fx_mul(dp1z as int, du2 as int),
                    -(rr as int),
                    0x800_0000_0000,
                    0x1_0000_0000,
                );
            }
            let tx: i64 = fx_mul(fx_mul(dp1x, dv2) - fx_mul(dp2x, dv1), rr);
            let ty: i64 = fx_mul(fx_mul(dp1y, dv2) - fx_mul(dp2y, dv1), rr);
            let tz: i64 = fx_mul(fx_mul(dp1z, dv2) - fx_mul(dp2z, dv1), rr);
            let bx: i64 = fx_mul(fx_mul(dp2x, du1) - fx_mul(dp1x, du2), -rr);
            let by: i64 = fx_mul(fx_mul(dp2y, du1) - fx_mul(dp1y, du2), -rr);
            let bz: i64 = fx_mul(fx_mul(dp2z, du1) - fx_mul(dp1z, du2), -rr);
            proof {
                assert(tx == spec_tri_tan(positions@, texcoords@, i0, i1, i2, 0, rr as int));
                assert(ty == spec_tri_tan(positions@, texcoords@, i0, i1, i2, 1, rr as int));
                assert(tz == spec_tri_tan(positions@, texcoords@, i0, i1, i2, 2, rr as int));
                assert(bx == spec_tri_bitan(positions@, texcoords@, i0, i1, i2, 0, rr as int));
                assert(by == spec_tri_bitan(positions@, texcoords@, i0, i1, i2, 1, rr as int));
                assert(bz == spec_tri_bitan(positions@, texcoords@, i0, i1, i2, 2, rr as int));
            }
            let ghost prev = accs@;
            let a0: TbAcc = accs[i0u];
            proof {
                lemma_acc_add_fits(a0, 3 * t as int);
            }
            accs[i0u] = TbAcc {
                tx: a0.tx + tx as i128,
                ty: a0.ty + ty as i128,
                tz: a0.tz + tz as i128,
                bx: a0.bx + bx as i128,
                by: a0.by + by as i128,
                bz: a0.bz + bz as i128,
                n: a0.n + 1,
            };
            proof {
                lemma_tb_update_all(
                    prev,
                    i0,
                    tx as int,
                    ty as int,
                    tz as int,
                    bx as int,
                    by as int,
                    bz as int,
                    3 * t as int,
                );
                assert(accs@ == prev.update(
                    i0,
                    spec_tb_add(prev[i0], tx as int, ty as int, tz as int, bx as int, by as int, bz as int),
                ));
            }
            let ghost s0 = accs@;
            let a1: TbAcc = accs[i1u];
            proof {
                lemma_acc_add_fits(a1, 3 * t as int + 1);
            }
            accs[i1u] = TbAcc {
                tx: a1.tx + tx as i128,
                ty: a1.ty + ty as i128,
                tz: a1.tz + tz as i128,
                bx: a1.bx + bx as i128,
                by: a1.by + by as i128,
                bz: a1.bz + bz as i128,
                n: a1.n + 1,
            };
            proof {
                lemma_tb_update_all(
                    s0,
                    i1,
                    tx as int,
                    ty as int,
                    tz as int,
                    bx as int,
                    by as int,
                    bz as int,
                    3 * t as int + 1,
                );
                assert(accs@ == s0.update(
                    i1,
                    spec_tb_add(s0[i1], tx as int, ty as int, tz as int, bx as int, by as int, bz as int),
                ));
            }
            let ghost s1 = accs@;
            let a2: TbAcc = accs[i2u];
            proof {
                lemma_acc_add_fits(a2, 3 * t as int + 2);
            }
            accs[i2u] = TbAcc {
                tx: a2.tx + tx as i128,
                ty: a2.ty + ty as i128,
                tz: a2.tz + tz as i128,
                bx: a2.bx + bx as i128,
                by: a2.by + by as i128,
                bz: a2.bz + bz as i128,
                n: a2.n + 1,
            };
            proof {
                assert(accs@ == s1.update(
                    i2,
                    spec_tb_add(s1[i2], tx as int, ty as int, tz as int, bx as int, by as int, bz as int),
                ));
                assert(accs@ == spec_tri_apply(prev, positions@, texcoords@, i0, i1, i2));
                assert(spec_tb_state(positions@, texcoords@, indices@, nv as int, t + 1)
                    == spec_tri_apply(prev, positions@, texcoords@, i0, i1, i2));
                assert(spec_degenerate_count(texcoords@, indices@, t + 1)
                    == spec_degenerate_count(texcoords@, indices@, t as int));
            }
        }
        t = t + 1;
    }
    proof {
        lemma_tb_state_ok(positions@, texcoords@, indices@, nv as int, tris as int);
    }
    let mut out: Vec<ModelVertex> = Vec::new();
    let mut i: usize = 0;
    while i < nv
        invariant
            coords_ok(positions@, texcoords@),
            plen == positions@.len(),
            uvlen == texcoords@.len(),
            nmlen == normals@.len(),
            nv == spec_vertex_count(positions@),
            3 * nv <= plen,
            2 * nv <= uvlen,
            3 * nv <= nmlen,
            0 <= i <= nv,
            accs@.len() == nv,
            accs@ == spec_tb_state(
                positions@,
                texcoords@,
                indices@,
                nv as int,
                idxlen as int / 3,
            ),
            forall|v: int| 0 <= v < nv ==> tb_acc_ok(#[trigger] accs@[v], 3 * (idxlen as int / 3)),
            out@.len() == i,
            forall|j: int|
                0 <= j < i ==> #[trigger] out@[j] == spec_built_vertex(
                    positions@,
                    texcoords@,
                    normals@,
                    accs@[j],
                    j,
                ),
        decreases nv - i,
    {
        let acc: TbAcc = accs[i];
        proof {
            lemma_avg_pre(acc, 3 * (idxlen as int / 3));
        }
        let vertex: ModelVertex = ModelVertex {
            position: Vec3Fx {
                x: positions[3 * i],
                y: positions[3 * i + 1],
                z: positions[3 * i + 2],
            },
            tex_coords: Vec2Fx { x: texcoords[2 * i], y: texcoords[2 * i + 1] },
            normal: Vec3Fx { x: normals[3 * i], y: normals[3 * i + 1], z: normals[3 * i + 2] },
            tangent: Vec3Fx {
                x: avg_comp(acc.tx, acc.n),
                y: avg_comp(acc.ty, acc.n),
                z: avg_comp(acc.tz, acc.n),
            },
            bitangent: Vec3Fx {
                x: avg_comp(acc.bx, acc.n),
                y: avg_comp(acc.by, acc.n),
                z: avg_comp(acc.bz, acc.n),
            },
        };
        out.push(vertex);
        i = i + 1;
    }
    Result::Ok(MeshGeometry { vertices: out, degenerate_triangles: deg })
}

/// An accumulator that respects its budget can take one more contribution
/// without leaving the 128-bit range.
proof fn lemma_acc_add_fits(a: TbAcc, m: int)
    requires
        tb_acc_ok(a, m),
        0 <= m <= 0x7000_0000_0000_0000,
    ensures
        -(i128::MAX as int) <= a.tx + TB_LIM,
        a.tx - TB_LIM <= i128::MAX,
        -(i128::MAX as int) <= a.tx - TB_LIM && a.tx + TB_LIM <= i128::MAX,
        -(i128::MAX as int) <= a.ty - TB_LIM && a.ty + TB_LIM <= i128::MAX,
        -(i128::MAX as int) <= a.tz - TB_LIM && a.tz + TB_LIM <= i128::MAX,
        -(i128::MAX as int) <= a.bx - TB_LIM && a.bx + TB_LIM <= i128::MAX,
        -(i128::MAX as int) <= a.by - TB_LIM && a.by + TB_LIM <= i128::MAX,
        -(i128::MAX as int) <= a.bz - TB_LIM && a.bz + TB_LIM <= i128::MAX,
        a.n + 1 <= u64::MAX,
{
    let n = a.n as int;
    assert(n * TB_LIM <= 0x7000_0000_0000_0000 * (TB_LIM as int)) by (nonlinear_arith)
        requires
            0 <= n <= 0x7000_0000_0000_0000,
    ;
}

/// Triangle `j` has an axis-aligned tangent frame: its position edges move
/// off the object-space x axis (the direction the u texture axis maps to)
/// only as their v texture coordinate moves — the off-x components of the
/// two leading edges are proportional to the v deltas, stated as vanishing
/// cross products. This holds of any planar quad whose u texture axis maps
/// to the x axis, under either diagonal split.
pub open spec fn tri_axis_aligned(
    positions: Seq<i64>,
    texcoords: Seq<i64>,
    indices: Seq<u32>,
    j: int,
) -> bool {
    let i0 = indices[3 * j] as int;
    let i1 = indices[3 * j + 1] as int;
    let i2 = indices[3 * j + 2] as int;
    let dv1 = uv_v(texcoords, i1) - uv_v(texcoords, i0);
    let dv2 = uv_v(texcoords, i2) - uv_v(texcoords, i0);
    &&& (pos_c(positions, i1, 1) - pos_c(positions, i0, 1)) * dv2 == (pos_c(positions, i2, 1)
        - pos_c(positions, i0, 1)) * dv1
    &&& (pos_c(positions, i1, 2) - pos_c(positions, i0, 2)) * dv2 == (pos_c(positions, i2, 2)
        - pos_c(positions, i0, 2)) * dv1
}

/// Tangent law for axis-aligned UV mappings — in particular for a planar
proof fn lemma_tb_state_len(
    positions: Seq<i64>,
    texcoords: Seq<i64>,
    indices: Seq<u32>,
    nv: int,
    t: int,
)
    requires
        mesh_indices_ok(indices, nv),
        0 <= nv,
        0 <= t,
        3 * t <= indices.len(),
    ensures
        spec_tb_state(positions, texcoords, indices, nv, t).len() == nv,
    decreases t,
{
    if t > 0 {
        lemma_tb_state_len(positions, texcoords, indices, nv, t - 1);
    }
}

/// Tangent law for axis-aligned UV mappings — in particular for a planar
/// quad split into two triangles with axis-aligned texture coordinates,
/// under either diagonal split: when every triangle satisfies
/// `tri_axis_aligned`, every accumulated tangent is parallel to the
/// object-space x axis (the u direction): its y and z components are
/// exactly zero.
pub proof fn lemma_tangent_axis_aligned(
    positions: Seq<i64>,
    texcoords: Seq<i64>,
    indices: Seq<u32>,
    nv: int,
    t: int,
)
    requires
        mesh_indices_ok(indices, nv),
        0 <= nv,
        0 <= t,
        3 * t <= indices.len(),
        forall|j: int| 0 <= j < t ==> tri_axis_aligned(positions, texcoords, indices, j),
    ensures
        forall|v: int|
            0 <= v < nv ==> (#[trigger] spec_tb_state(positions, texcoords, indices, nv, t)[v]).ty
                == 0 && spec_tb_state(positions, texcoords, indices, nv, t)[v].tz == 0,
    decreases t,
{
    if t <= 0 {
    } else {
        lemma_tangent_axis_aligned(positions, texcoords, indices, nv, t - 1);
        lemma_tb_state_len(positions, texcoords, indices, nv, t - 1);
        let prev = spec_tb_state(positions, texcoords, indices, nv, t - 1);
        let s = spec_tb_state(positions, texcoords, indices, nv, t);
        let i0 = indices[3 * (t - 1)] as int;
        let i1 = indices[3 * (t - 1) + 1] as int;
        let i2 = indices[3 * (t - 1) + 2] as int;
        assert(tri_axis_aligned(positions, texcoords, indices, t - 1));
        let det = spec_tri_det(texcoords, i0, i1, i2);
        if det == 0 {
        } else {
            let r = spec_fx_div(FX_ONE as int, det);
            let dv1 = uv_v(texcoords, i1) - uv_v(texcoords, i0);
            let dv2 = uv_v(texcoords, i2) - uv_v(texcoords, i0);
            let dp1y = pos_c(positions, i1, 1) - pos_c(positions, i0, 1);
            let dp2y = pos_c(positions, i2, 1) - pos_c(positions, i0, 1);
            let dp1z = pos_c(positions, i1, 2) - pos_c(positions, i0, 2);
            let dp2z = pos_c(positions, i2, 2) - pos_c(positions, i0, 2);
            assert(spec_tri_tan(positions, texcoords, i0, i1, i2, 1, r) == 0) by {
                assert(dp1y * dv2 == dp2y * dv1);
                assert(spec_fx_mul(dp1y, dv2) == spec_fx_mul(dp2y, dv1));
                lemma_fx_mul_zero(r);
            }
            assert(spec_tri_tan(positions, texcoords, i0, i1, i2, 2, r) == 0) by {
                assert(dp1z * dv2 == dp2z * dv1);
                assert(spec_fx_mul(dp1z, dv2) == spec_fx_mul(dp2z, dv1));
                lemma_fx_mul_zero(r);
            }
            let tx = spec_tri_tan(positions, texcoords, i0, i1, i2, 0, r);
            let bx = spec_tri_bitan(positions, texcoords, i0, i1, i2, 0, r);
            let by = spec_tri_bitan(positions, texcoords, i0, i1, i2, 1, r);
            let bz = spec_tri_bitan(positions, texcoords, i0, i1, i2, 2, r);
            let s0 = prev.update(i0, spec_tb_add(prev[i0], tx, 0, 0, bx, by, bz));
            let s1 = s0.update(i1, spec_tb_add(s0[i1], tx, 0, 0, bx, by, bz));
            assert(0 <= i0 < nv && 0 <= i1 < nv && 0 <= i2 < nv);
            assert forall|v: int| 0 <= v < nv implies (#[trigger] s0[v]).ty == 0 && s0[v].tz
                == 0 by {
                assert(prev[v].ty == 0 && prev[v].tz == 0);
                if v == i0 {
                    assert(s0[v] == spec_tb_add(prev[i0], tx, 0, 0, bx, by, bz));
                }
            }
            assert forall|v: int| 0 <= v < nv implies (#[trigger] s1[v]).ty == 0 && s1[v].tz
                == 0 by {
                if v == i1 {
                    assert(s1[v] == spec_tb_add(s0[i1], tx, 0, 0, bx, by, bz));
                }
            }
            assert(s == s1.update(i2, spec_tb_add(s1[i2], tx, 0, 0, bx, by, bz)));
            assert forall|v: int| 0 <= v < nv implies (#[trigger] s[v]).ty == 0 && s[v].tz
                == 0 by {
                if v == i2 {
                    assert(s[v] == spec_tb_add(s1[i2], tx, 0, 0, bx, by, bz));
                }
            }
        }
    }
}

/// The finished form of the tangent law: under the same axis-aligned UV
/// mapping, every vertex the builder hands back has a tangent whose y and z
/// components are exactly zero.
pub proof fn lemma_built_tangent_axis_aligned(
    positions: Seq<i64>,
    texcoords: Seq<i64>,
    normals: Seq<i64>,
    indices: Seq<u32>,
    nv: int,
    t: int,
    i: int,
)
    requires
        mesh_indices_ok(indices, nv),
        0 <= t,
        3 * t <= indices.len(),
        forall|j: int| 0 <= j < t ==> tri_axis_aligned(positions, texcoords, indices, j),
        0 <= i < nv,
    ensures
        spec_built_vertex(
            positions,
            texcoords,
            normals,
            spec_tb_state(positions, texcoords, indices, nv, t)[i],
            i,
        ).tangent.y == 0,
        spec_built_vertex(
            positions,
            texcoords,
            normals,
            spec_tb_state(positions, texcoords, indices, nv, t)[i],
            i,
        ).tangent.z == 0,
{
    lemma_tangent_axis_aligned(positions, texcoords, indices, nv, t);
    let acc = spec_tb_state(positions, texcoords, indices, nv, t)[i];
    if acc.n as int > 0 {
        vstd::arithmetic::div_mod::lemma_div_of0(acc.n as int);
    }
}

/// The precondition of averaging: the accumulated components are within the
/// count times the per-triangle bound.
proof fn lemma_avg_pre(a: TbAcc, m: int)
    requires
        tb_acc_ok(a, m),
    ensures
        -((a.n as int) * (TB_LIM as int)) <= a.tx <= (a.n as int) * (TB_LIM as int),
        -((a.n as int) * (TB_LIM as int)) <= a.ty <= (a.n as int) * (TB_LIM as int),
        -((a.n as int) * (TB_LIM as int)) <= a.tz <= (a.n as int) * (TB_LIM as int),
        -((a.n as int) * (TB_LIM as int)) <= a.bx <= (a.n as int) * (TB_LIM as int),
        -((a.n as int) * (TB_LIM as int)) <= a.by <= (a.n as int) * (TB_LIM as int),
        -((a.n as int) * (TB_LIM as int)) <= a.bz <= (a.n as int) * (TB_LIM as int),
{
}

} // verus!
