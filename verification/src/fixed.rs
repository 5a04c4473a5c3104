//! Fixed-point scalars and small vectors.
//!
//! Every continuous quantity of the engine (positions, angles, speeds,
//! elapsed seconds, texture coordinates) is carried as an `i64` holding the
//! quantity times 2^16, so that the whole simulation stays in integer
//! arithmetic and its behaviour can be stated exactly.

use vstd::prelude::*;

verus! {

use vstd::arithmetic::div_mod::lemma_div_is_ordered;

/// The representation of 1.0: scalars carry 16 fractional bits.
pub const FX_ONE: i64 = 65536;

/// The representation of 0.5.
pub const FX_HALF: i64 = 32768;

/// Truncating division for a positive divisor: the real quotient rounded
/// toward zero.
pub open spec fn tdiv(p: int, q: int) -> int {
    if p >= 0 {
        p / q
    } else {
        -((-p) / q)
    }
}

/// Truncating division for any nonzero divisor.
pub open spec fn sdiv(p: int, q: int) -> int {
    if q > 0 {
        tdiv(p, q)
    } else {
        tdiv(-p, -q)
    }
}

/// The fixed-point product: (a * b) / 2^16, rounded toward zero.
pub open spec fn spec_fx_mul(a: int, b: int) -> int {
    tdiv(a * b, FX_ONE as int)
}

/// The fixed-point quotient: (a * 2^16) / b, rounded toward zero.
pub open spec fn spec_fx_div(a: int, b: int) -> int {
    sdiv(a * FX_ONE, b)
}

/// |a * b| <= m * n whenever |a| <= m and |b| <= n.
pub proof fn lemma_mul_bound(a: int, b: int, m: int, n: int)
    requires
        -m <= a <= m,
        -n <= b <= n,
        0 <= m,
        0 <= n,
    ensures
        -(m * n) <= a * b <= m * n,
{
    assert(-(m * n) <= a * b <= m * n) by (nonlinear_arith)
        requires
            -m <= a <= m,
            -n <= b <= n,
            0 <= m,
            0 <= n,
    ;
}

/// Truncating division shrinks magnitudes: |tdiv(p, q)| <= |p| for q >= 1.
pub proof fn lemma_tdiv_shrinks(p: int, q: int)
    requires
        q >= 1,
    ensures
        p >= 0 ==> 0 <= tdiv(p, q) <= p,
        p < 0 ==> p <= tdiv(p, q) <= 0,
{
    if p >= 0 {
        assert(0 <= p / q <= p) by (nonlinear_arith)
            requires
                q >= 1,
                p >= 0,
        ;
    } else {
        assert(0 <= (-p) / q <= -p) by (nonlinear_arith)
            requires
                q >= 1,
                p < 0,
        ;
    }
}

/// The magnitude of a fixed-point product is at most (m * n) / 2^16 when the
/// factors are bounded by m and n.
pub proof fn lemma_fx_mul_bound(a: int, b: int, m: int, n: int)
    requires
        -m <= a <= m,
        -n <= b <= n,
        0 <= m,
        0 <= n,
    ensures
        -tdiv(m * n, FX_ONE as int) <= spec_fx_mul(a, b) <= tdiv(m * n, FX_ONE as int),
{
    lemma_mul_bound(a, b, m, n);
    let p = a * b;
    let mn = m * n;
    if p >= 0 {
        lemma_div_is_ordered(p, mn, FX_ONE as int);
        lemma_tdiv_shrinks(p, FX_ONE as int);
    } else {
        lemma_div_is_ordered(-p, mn, FX_ONE as int);
        lemma_tdiv_shrinks(p, FX_ONE as int);
    }
}

/// Dividing a multiple of a positive divisor is exact.
pub proof fn lemma_mul_div_exact(x: int, s: int)
    requires
        s > 0,
    ensures
        (x * s) / s == x,
{
    assert((x * s) / s == x) by (nonlinear_arith)
        requires
            s > 0,
    ;
}

/// Multiplying by the fixed-point unit is exact.
pub proof fn lemma_fx_mul_one(a: int)
    ensures
        spec_fx_mul(a, FX_ONE as int) == a,
        spec_fx_mul(FX_ONE as int, a) == a,
{
    assert(a * FX_ONE == a * 65536);
    assert(FX_ONE * a == a * 65536) by (nonlinear_arith);
    if a >= 0 {
        assert((a * 65536) / 65536 == a) by (nonlinear_arith);
    } else {
        assert((-(a * 65536)) / 65536 == -a) by (nonlinear_arith);
    }
}

/// Multiplying by zero is zero.
pub proof fn lemma_fx_mul_zero(a: int)
    ensures
        spec_fx_mul(a, 0) == 0,
        spec_fx_mul(0, a) == 0,
{
    assert(a * 0 == 0) by (nonlinear_arith);
    assert(0 * a == 0) by (nonlinear_arith);
}

/// The fixed-point product of `a` and `b`, rounded toward zero.
pub fn fx_mul(a: i64, b: i64) -> (r: i64)
    requires
        i64::MIN * (FX_ONE as int) <= a * b <= i64::MAX * (FX_ONE as int),
    ensures
        r == spec_fx_mul(a as int, b as int),
{
    let neg: bool = (a < 0) != (b < 0);
    let ua: u64 = if a >= 0 {
        a as u64
    } else {
        (-(a as i128)) as u64
    };
    let ub: u64 = if b >= 0 {
        b as u64
    } else {
        (-(b as i128)) as u64
    };
    proof {
        lemma_mul_bound(ua as int, ub as int, u64::MAX as int, u64::MAX as int);
    }
    let p: u128 = (ua as u128) * (ub as u128);
    proof {
        assert((a as int * b as int >= 0 ==> p == a as int * b as int) && (a as int * b as int
            <= 0 ==> p == -(a as int * b as int)) && (neg ==> a as int * b as int <= 0) && (!neg
            ==> a as int * b as int >= 0)) by (nonlinear_arith)
            requires
                ua as int == (if a >= 0 { a as int } else { -(a as int) }),
                ub as int == (if b >= 0 { b as int } else { -(b as int) }),
                p == (ua as int) * (ub as int),
                neg == ((a < 0) != (b < 0)),
        ;
    }
    let q: u128 = p / (FX_ONE as u128);
    proof {
        let ab = a as int * b as int;
        if ab >= 0 {
            lemma_div_is_ordered(p as int, i64::MAX * (FX_ONE as int), FX_ONE as int);
            lemma_mul_div_exact(i64::MAX as int, FX_ONE as int);
            assert(q <= i64::MAX);
            assert(q == tdiv(ab, FX_ONE as int));
        } else {
            lemma_div_is_ordered(p as int, -(i64::MIN * (FX_ONE as int)), FX_ONE as int);
            lemma_mul_div_exact(-(i64::MIN as int), FX_ONE as int);
            assert(q <= -(i64::MIN as int));
            assert(-(q as int) == tdiv(ab, FX_ONE as int));
        }
    }
    if neg {
        (-(q as i128)) as i64
    } else {
        q as i64
    }
}

/// The fixed-point quotient of `a` by `b`, rounded toward zero.
pub fn fx_div(a: i64, b: i64) -> (r: i64)
    requires
        b != 0,
        -0x4000_0000_0000 <= a <= 0x4000_0000_0000,
    ensures
        r == spec_fx_div(a as int, b as int),
{
    let neg: bool = (a < 0) != (b < 0);
    let ua: u64 = if a >= 0 {
        a as u64
    } else {
        (-(a as i128)) as u64
    };
    let ub: u64 = if b >= 0 {
        b as u64
    } else {
        (-(b as i128)) as u64
    };
    let p: u128 = (ua as u128) * (FX_ONE as u128);
    let q: u128 = p / (ub as u128);
    proof {
        assert(ub >= 1);
        lemma_tdiv_shrinks(p as int, ub as int);
        let num = (a as int) * (FX_ONE as int);
        assert(a >= 0 ==> num == p as int);
        assert(a < 0 ==> num == -(p as int));
        if b > 0 {
            assert(spec_fx_div(a as int, b as int) == tdiv(num, b as int));
        } else {
            assert(spec_fx_div(a as int, b as int) == tdiv(-num, ub as int));
        }
    }
    if neg {
        (-(q as i128)) as i64
    } else {
        q as i64
    }
}

/// Clamp `v` into the interval [lo, hi].
pub fn fx_clamp(v: i64, lo: i64, hi: i64) -> (r: i64)
    requires
        lo <= hi,
    ensures
        r == spec_clamp(v as int, lo as int, hi as int),
{
    if v < lo {
        lo
    } else if v > hi {
        hi
    } else {
        v
    }
}

/// A dimension reported by the platform, clamped so that a zero-area
/// surface (a minimized window) never reaches the GPU.
pub open spec fn spec_clamp_dim(d: int) -> int {
    if d < 1 {
        1
    } else {
        d
    }
}

/// Clamp a reported dimension to at least one pixel.
pub fn clamp_dim(d: u32) -> (r: u32)
    ensures
        r == spec_clamp_dim(d as int),
        r >= 1,
{
    if d < 1 {
        1
    } else {
        d
    }
}

/// The value of `v` clamped into [lo, hi].
pub open spec fn spec_clamp(v: int, lo: int, hi: int) -> int {
    if v < lo {
        lo
    } else if v > hi {
        hi
    } else {
        v
    }
}

/// The integer square root: the largest r with r * r <= n.
pub open spec fn spec_isqrt(n: nat) -> nat
    decreases n,
{
    if n == 0 {
        0
    } else {
        let p = spec_isqrt((n - 1) as nat);
        if (p + 1) * (p + 1) <= n {
            p + 1
        } else {
            p
        }
    }
}

/// spec_isqrt really is the rounded-down square root.
pub proof fn lemma_isqrt_bounds(n: nat)
    ensures
        spec_isqrt(n) * spec_isqrt(n) <= n,
        n < (spec_isqrt(n) + 1) * (spec_isqrt(n) + 1),
    decreases n,
{
    if n == 0 {
        let s = spec_isqrt(n);
        assert(s == 0);
        assert(n < (s + 1) * (s + 1)) by (nonlinear_arith)
            requires
                s == 0nat,
                n == 0nat,
        ;
    } else {
        lemma_isqrt_bounds((n - 1) as nat);
        let p = spec_isqrt((n - 1) as nat);
        assert(p * p <= n - 1);
        assert(n - 1 < (p + 1) * (p + 1));
        if (p + 1) * (p + 1) <= n {
            assert(spec_isqrt(n) == p + 1);
            assert(n < ((p + 1) + 1) * ((p + 1) + 1)) by (nonlinear_arith)
                requires
                    n <= (p + 1) * (p + 1),
            ;
        } else {
            assert(spec_isqrt(n) == p);
            assert(p * p <= n);
            assert(n < (p + 1) * (p + 1));
        }
    }
}

/// Any r with r * r <= n < (r + 1)^2 is the integer square root of n.
pub proof fn lemma_isqrt_unique(n: nat, r: nat)
    requires
        r * r <= n,
        n < (r + 1) * (r + 1),
    ensures
        r == spec_isqrt(n),
{
    lemma_isqrt_bounds(n);
    let s = spec_isqrt(n);
    assert(r == s) by (nonlinear_arith)
        requires
            r * r <= n < (r + 1) * (r + 1),
            s * s <= n < (s + 1) * (s + 1),
    ;
}

/// The integer square root of `n`, by binary search.
pub fn isqrt_u64(n: u64) -> (r: u64)
    ensures
        r == spec_isqrt(n as nat),
{
    let mut lo: u64 = 0;
    let mut hi: u64 = 0xFFFF_FFFF;
    proof {
        assert((0xFFFF_FFFFu64 + 1) * (0xFFFF_FFFFu64 + 1) > u64::MAX) by (nonlinear_arith);
    }
    while lo < hi
        invariant
            lo <= hi <= 0xFFFF_FFFF,
            lo * lo <= n,
            n < (hi + 1) * (hi + 1),
        decreases hi - lo,
    {
        let mid: u64 = lo + (hi - lo + 1) / 2;
        proof {
            assert(lo < mid <= hi);
            assert(mid * mid <= 0xFFFF_FFFFu64 * 0xFFFF_FFFFu64) by (nonlinear_arith)
                requires
                    mid <= 0xFFFF_FFFFu64,
            ;
        }
        if mid * mid <= n {
            lo = mid;
        } else {
            hi = mid - 1;
        }
    }
    proof {
        lemma_isqrt_unique(n as nat, lo as nat);
    }
    lo
}

/// The fixed-point square root: sqrt(a * 2^16 * 2^16) / 2^16 in real terms,
/// rounded down.
pub open spec fn spec_fx_sqrt(a: int) -> int {
    spec_isqrt((a * FX_ONE) as nat) as int
}

/// The fixed-point square root of a nonnegative fixed-point value.
pub fn fx_sqrt(a: i64) -> (r: i64)
    requires
        0 <= a <= 0x7FFF_FFFF_FFFF,
    ensures
        r == spec_fx_sqrt(a as int),
        r >= 0,
{
    proof {
        assert(FX_ONE == 65536);
        assert((a as int) * 65536 <= u64::MAX);
    }
    let n: u64 = (a as u64) * (FX_ONE as u64);
    let r: u64 = isqrt_u64(n);
    proof {
        lemma_isqrt_bounds(n as nat);
        assert(r <= 0xFFFF_FFFFu64) by (nonlinear_arith)
            requires
                r * r <= n,
                n <= u64::MAX,
        ;
    }
    r as i64
}

/// A 3-vector of fixed-point scalars.
#[derive(Clone, Copy, Debug, PartialEq, Eq, Structural)]
pub struct Vec3Fx {
    pub x: i64,
    pub y: i64,
    pub z: i64,
}

/// All three components lie within [-m, m].
pub open spec fn vec3_bounded(v: Vec3Fx, m: int) -> bool {
    &&& -m <= v.x <= m
    &&& -m <= v.y <= m
    &&& -m <= v.z <= m
}

impl Vec3Fx {
    /// The zero vector.
    pub open spec fn spec_zero() -> Vec3Fx {
        Vec3Fx { x: 0, y: 0, z: 0 }
    }

    pub fn zero() -> (r: Vec3Fx)
        ensures
            r == Vec3Fx::spec_zero(),
    {
        Vec3Fx { x: 0, y: 0, z: 0 }
    }

    /// Component-wise sum.
    pub fn plus(self, o: Vec3Fx) -> (r: Vec3Fx)
        requires
            i64::MIN <= self.x + o.x <= i64::MAX,
            i64::MIN <= self.y + o.y <= i64::MAX,
            i64::MIN <= self.z + o.z <= i64::MAX,
        ensures
            r.x == self.x + o.x,
            r.y == self.y + o.y,
            r.z == self.z + o.z,
            r == spec_v3_plus(self, o),
    {
        Vec3Fx { x: self.x + o.x, y: self.y + o.y, z: self.z + o.z }
    }

    /// Component-wise difference.
    pub fn minus(self, o: Vec3Fx) -> (r: Vec3Fx)
        requires
            i64::MIN <= self.x - o.x <= i64::MAX,
            i64::MIN <= self.y - o.y <= i64::MAX,
            i64::MIN <= self.z - o.z <= i64::MAX,
        ensures
            r.x == self.x - o.x,
            r.y == self.y - o.y,
            r.z == self.z - o.z,
    {
        Vec3Fx { x: self.x - o.x, y: self.y - o.y, z: self.z - o.z }
    }

    /// The vector scaled by the fixed-point factor `k`.
    pub open spec fn spec_scaled(self, k: int) -> Vec3Fx {
        Vec3Fx {
            x: spec_fx_mul(self.x as int, k) as i64,
            y: spec_fx_mul(self.y as int, k) as i64,
            z: spec_fx_mul(self.z as int, k) as i64,
        }
    }

    pub fn scaled(self, k: i64) -> (r: Vec3Fx)
        requires
            i64::MIN * (FX_ONE as int) <= self.x * k <= i64::MAX * (FX_ONE as int),
            i64::MIN * (FX_ONE as int) <= self.y * k <= i64::MAX * (FX_ONE as int),
            i64::MIN * (FX_ONE as int) <= self.z * k <= i64::MAX * (FX_ONE as int),
        ensures
            r == self.spec_scaled(k as int),
            r.x == spec_fx_mul(self.x as int, k as int),
            r.y == spec_fx_mul(self.y as int, k as int),
            r.z == spec_fx_mul(self.z as int, k as int),
    {
        Vec3Fx { x: fx_mul(self.x, k), y: fx_mul(self.y, k), z: fx_mul(self.z, k) }
    }

    /// The squared fixed-point length.
    pub open spec fn spec_norm_sq(self) -> int {
        spec_fx_mul(self.x as int, self.x as int) + spec_fx_mul(self.y as int, self.y as int)
            + spec_fx_mul(self.z as int, self.z as int)
    }

    /// The direction of the vector at unit fixed-point length, or the zero
    /// vector when the fixed-point length rounds down to zero.
    pub open spec fn spec_normalize(self) -> Vec3Fx {
        let len = spec_fx_sqrt(self.spec_norm_sq());
        if len == 0 {
            Vec3Fx::spec_zero()
        } else {
            Vec3Fx {
                x: spec_fx_div(self.x as int, len) as i64,
                y: spec_fx_div(self.y as int, len) as i64,
                z: spec_fx_div(self.z as int, len) as i64,
            }
        }
    }

    pub fn normalize(self) -> (r: Vec3Fx)
        requires
            vec3_bounded(self, 0x4000_0000),
        ensures
            r == self.spec_normalize(),
    {
        proof {
            lemma_fx_sq_bounds(self.x as int, 0x4000_0000);
            lemma_fx_sq_bounds(self.y as int, 0x4000_0000);
            lemma_fx_sq_bounds(self.z as int, 0x4000_0000);
        }
        let s: i64 = fx_mul(self.x, self.x) + fx_mul(self.y, self.y) + fx_mul(self.z, self.z);
        let len: i64 = fx_sqrt(s);
        if len == 0 {
            Vec3Fx { x: 0, y: 0, z: 0 }
        } else {
            Vec3Fx {
                x: fx_div(self.x, len),
                y: fx_div(self.y, len),
                z: fx_div(self.z, len),
            }
        }
    }
}

impl Vec3Fx {
    /// The fixed-point dot product.
    pub open spec fn spec_dot(self, o: Vec3Fx) -> int {
        spec_fx_mul(self.x as int, o.x as int) + spec_fx_mul(self.y as int, o.y as int)
            + spec_fx_mul(self.z as int, o.z as int)
    }

    /// The dot product of a direction (small components) with a position.
    pub fn dot(self, o: Vec3Fx) -> (r: i64)
        requires
            vec3_bounded(self, 0x20_0000),
            vec3_bounded(o, 0x4000_0000_0000),
        ensures
            r == self.spec_dot(o),
            -0x18_0000_0000_0000 <= r <= 0x18_0000_0000_0000,
    {
        proof {
            lemma_mul_bound(self.x as int, o.x as int, 0x20_0000, 0x4000_0000_0000);
            lemma_mul_bound(self.y as int, o.y as int, 0x20_0000, 0x4000_0000_0000);
            lemma_mul_bound(self.z as int, o.z as int, 0x20_0000, 0x4000_0000_0000);
            lemma_fx_mul_bound(self.x as int, o.x as int, 0x20_0000, 0x4000_0000_0000);
            lemma_fx_mul_bound(self.y as int, o.y as int, 0x20_0000, 0x4000_0000_0000);
            lemma_fx_mul_bound(self.z as int, o.z as int, 0x20_0000, 0x4000_0000_0000);
            lemma_tdiv_shrinks(0x20_0000int * 0x4000_0000_0000int, FX_ONE as int);
            assert(tdiv(0x20_0000int * 0x4000_0000_0000int, FX_ONE as int) == 0x8_0000_0000_0000int);
        }
        fx_mul(self.x, o.x) + fx_mul(self.y, o.y) + fx_mul(self.z, o.z)
    }

    /// The fixed-point cross product.
    pub open spec fn spec_cross(self, o: Vec3Fx) -> Vec3Fx {
        Vec3Fx {
            x: (spec_fx_mul(self.y as int, o.z as int) - spec_fx_mul(self.z as int, o.y as int)) as i64,
            y: (spec_fx_mul(self.z as int, o.x as int) - spec_fx_mul(self.x as int, o.z as int)) as i64,
            z: (spec_fx_mul(self.x as int, o.y as int) - spec_fx_mul(self.y as int, o.x as int)) as i64,
        }
    }

    /// The cross product of two directions.
    pub fn cross(self, o: Vec3Fx) -> (r: Vec3Fx)
        requires
            vec3_bounded(self, 0x4_0000),
            vec3_bounded(o, 0x4_0000),
        ensures
            r == self.spec_cross(o),
            vec3_bounded(r, 0x20_0000),
    {
        proof {
            lemma_mul_bound(self.y as int, o.z as int, 0x4_0000, 0x4_0000);
            lemma_mul_bound(self.z as int, o.y as int, 0x4_0000, 0x4_0000);
            lemma_mul_bound(self.z as int, o.x as int, 0x4_0000, 0x4_0000);
            lemma_mul_bound(self.x as int, o.z as int, 0x4_0000, 0x4_0000);
            lemma_mul_bound(self.x as int, o.y as int, 0x4_0000, 0x4_0000);
            lemma_mul_bound(self.y as int, o.x as int, 0x4_0000, 0x4_0000);
            lemma_fx_mul_bound(self.y as int, o.z as int, 0x4_0000, 0x4_0000);
            lemma_fx_mul_bound(self.z as int, o.y as int, 0x4_0000, 0x4_0000);
            lemma_fx_mul_bound(self.z as int, o.x as int, 0x4_0000, 0x4_0000);
            lemma_fx_mul_bound(self.x as int, o.z as int, 0x4_0000, 0x4_0000);
            lemma_fx_mul_bound(self.x as int, o.y as int, 0x4_0000, 0x4_0000);
            lemma_fx_mul_bound(self.y as int, o.x as int, 0x4_0000, 0x4_0000);
            lemma_tdiv_shrinks(0x4_0000int * 0x4_0000int, FX_ONE as int);
            assert(tdiv(0x4_0000int * 0x4_0000int, FX_ONE as int) == 0x10_0000int);
        }
        Vec3Fx {
            x: fx_mul(self.y, o.z) - fx_mul(self.z, o.y),
            y: fx_mul(self.z, o.x) - fx_mul(self.x, o.z),
            z: fx_mul(self.x, o.y) - fx_mul(self.y, o.x),
        }
    }
}

/// The component-wise sum as a vector value.
pub open spec fn spec_v3_plus(a: Vec3Fx, b: Vec3Fx) -> Vec3Fx {
    Vec3Fx { x: (a.x + b.x) as i64, y: (a.y + b.y) as i64, z: (a.z + b.z) as i64 }
}

/// A fixed-point quotient is at most 2^16 times the magnitude of the
/// dividend.
pub proof fn lemma_fx_div_bound(a: int, b: int)
    requires
        b != 0,
    ensures
        -(if a >= 0 {
            a
        } else {
            -a
        }) * FX_ONE <= spec_fx_div(a, b) <= (if a >= 0 {
            a
        } else {
            -a
        }) * FX_ONE,
{
    let m = if a >= 0 { a } else { -a };
    let p = a * FX_ONE;
    assert(p == if a >= 0 { m * FX_ONE } else { -(m * FX_ONE) });
    if b > 0 {
        lemma_tdiv_shrinks(p, b);
        lemma_tdiv_shrinks(-p, b);
    } else {
        lemma_tdiv_shrinks(-p, -b);
        lemma_tdiv_shrinks(p, -b);
    }
}

/// Normalizing a vector bounded by m yields one bounded by m * 2^16.
pub proof fn lemma_normalize_bounded(v: Vec3Fx, m: int)
    requires
        vec3_bounded(v, m),
        0 <= m,
        m * (FX_ONE as int) <= i64::MAX,
    ensures
        vec3_bounded(v.spec_normalize(), m * (FX_ONE as int)),
{
    let len = spec_fx_sqrt(v.spec_norm_sq());
    assert(0 <= m * (FX_ONE as int)) by (nonlinear_arith)
        requires
            0 <= m,
    ;
    if len == 0 {
    } else {
        lemma_fx_div_bound(v.x as int, len);
        lemma_fx_div_bound(v.y as int, len);
        lemma_fx_div_bound(v.z as int, len);
        assert((if v.x >= 0 {
            v.x as int
        } else {
            -(v.x as int)
        }) * FX_ONE <= m * (FX_ONE as int)) by (nonlinear_arith)
            requires
                -m <= v.x <= m,
        ;
        assert((if v.y >= 0 {
            v.y as int
        } else {
            -(v.y as int)
        }) * FX_ONE <= m * (FX_ONE as int)) by (nonlinear_arith)
            requires
                -m <= v.y <= m,
        ;
        assert((if v.z >= 0 {
            v.z as int
        } else {
            -(v.z as int)
        }) * FX_ONE <= m * (FX_ONE as int)) by (nonlinear_arith)
            requires
                -m <= v.z <= m,
        ;
    }
}

/// A quotient is bounded once the dividend is within the divisor times the
/// bound.
pub proof fn lemma_tdiv_quotient_bound(p: int, q: int, bnd: int)
    requires
        q >= 1,
        0 <= bnd,
        -(q * bnd) <= p <= q * bnd,
    ensures
        -bnd <= tdiv(p, q) <= bnd,
{
    lemma_mul_div_exact(bnd, q);
    assert(q * bnd == bnd * q) by (nonlinear_arith);
    if p >= 0 {
        lemma_div_is_ordered(p, q * bnd, q);
        lemma_tdiv_shrinks(p, q);
    } else {
        lemma_div_is_ordered(-p, q * bnd, q);
        lemma_tdiv_shrinks(p, q);
    }
}

/// A fixed-point quotient is bounded once the dividend times the unit is
/// within the divisor's magnitude times the bound.
pub proof fn lemma_fx_div_denom_bound(a: int, b: int, dmin: int, bnd: int)
    requires
        b >= dmin || -b >= dmin,
        dmin >= 1,
        0 <= bnd,
        -(dmin * bnd) <= a * FX_ONE <= dmin * bnd,
    ensures
        -bnd <= spec_fx_div(a, b) <= bnd,
{
    let p = a * FX_ONE;
    let m = if b > 0 { b } else { -b };
    assert(m >= dmin);
    assert(dmin * bnd <= m * bnd) by (nonlinear_arith)
        requires
            1 <= dmin <= m,
            0 <= bnd,
    ;
    lemma_tdiv_quotient_bound(p, m, bnd);
    if b > 0 {
    } else {
        lemma_tdiv_quotient_bound(-p, m, bnd);
    }
}

/// The integer square root is monotone.
pub proof fn lemma_isqrt_monotone(a: nat, b: nat)
    requires
        a <= b,
    ensures
        spec_isqrt(a) <= spec_isqrt(b),
{
    lemma_isqrt_bounds(a);
    lemma_isqrt_bounds(b);
    let ra = spec_isqrt(a);
    let rb = spec_isqrt(b);
    assert(ra <= rb) by (nonlinear_arith)
        requires
            ra * ra <= a,
            a <= b,
            b < (rb + 1) * (rb + 1),
    ;
}

/// One component of a normalized vector: dividing by the fixed-point length
/// cannot exceed twice the unit.
proof fn lemma_norm_comp_bound(c: i64, ns: int, len: int)
    requires
        ns >= 1,
        spec_fx_mul(c as int, c as int) <= ns,
        0 <= spec_fx_mul(c as int, c as int),
        len == spec_isqrt((ns * FX_ONE) as nat),
        len >= 256,
    ensures
        -(2 * (FX_ONE as int)) <= spec_fx_div(c as int, len) <= 2 * (FX_ONE as int),
{
    let m: int = if c >= 0 { c as int } else { -(c as int) };
    let cc = (c as int) * (c as int);
    assert(cc == m * m) by (nonlinear_arith)
        requires
            m == (if c >= 0 { c as int } else { -(c as int) }),
            cc == (c as int) * (c as int),
    ;
    let k = spec_fx_mul(c as int, c as int);
    vstd::arithmetic::div_mod::lemma_fundamental_div_mod(cc, FX_ONE as int);
    assert(k == cc / (FX_ONE as int));
    assert(k * FX_ONE > cc - FX_ONE);
    assert(k * FX_ONE <= ns * FX_ONE) by (nonlinear_arith)
        requires
            k <= ns,
    ;
    lemma_isqrt_bounds((ns * FX_ONE) as nat);
    assert(0 <= ns * FX_ONE) by (nonlinear_arith)
        requires
            ns >= 1,
    ;
    assert(len * len <= ns * FX_ONE);
    assert(ns * FX_ONE < (len + 1) * (len + 1));
    if m > 2 * len {
        assert(m * m >= (2 * len + 1) * (2 * len + 1)) by (nonlinear_arith)
            requires
                m > 2 * len,
                len >= 0,
        ;
        assert(false) by (nonlinear_arith)
            requires
                ns * FX_ONE < (len + 1) * (len + 1),
                ns * FX_ONE >= k * FX_ONE,
                k * FX_ONE > m * m - FX_ONE,
                m * m >= (2 * len + 1) * (2 * len + 1),
                len >= 256,
                FX_ONE == 65536,
        ;
    }
    assert(m <= 2 * len);
    let p = m * FX_ONE;
    assert(p <= 2 * len * FX_ONE && 0 <= p) by (nonlinear_arith)
        requires
            0 <= m <= 2 * len,
            p == m * FX_ONE,
    ;
    lemma_div_is_ordered(p, 2 * len * FX_ONE, len);
    lemma_mul_div_exact(2 * FX_ONE, len);
    assert(2 * len * FX_ONE == (2 * FX_ONE) * len) by (nonlinear_arith);
    assert(0 <= p / len);
    assert(p / len <= 2 * FX_ONE);
    assert((c as int) * (FX_ONE as int) == (if c >= 0 {
        p
    } else {
        -p
    })) by (nonlinear_arith)
        requires
            m == (if c >= 0 { c as int } else { -(c as int) }),
            p == m * FX_ONE,
    ;
}

/// Normalizing never yields a component beyond two fixed-point units: the
/// fixed-point length of a vector is at least half its largest component.
pub proof fn lemma_normalize_unit(v: Vec3Fx)
    ensures
        vec3_bounded(v.spec_normalize(), 2 * (FX_ONE as int)),
{
    let big: int = 0x8000_0000_0000_0000;
    lemma_fx_sq_bounds(v.x as int, big);
    lemma_fx_sq_bounds(v.y as int, big);
    lemma_fx_sq_bounds(v.z as int, big);
    let ns = v.spec_norm_sq();
    let len = spec_fx_sqrt(ns);
    if len == 0 {
    } else {
        assert(ns >= 1);
        assert(FX_ONE as int <= ns * FX_ONE) by (nonlinear_arith)
            requires
                ns >= 1,
        ;
        lemma_isqrt_monotone(65536nat, (ns * FX_ONE) as nat);
        assert(256nat * 256nat == 65536nat) by (nonlinear_arith);
        assert(257nat * 257nat == 66049nat) by (nonlinear_arith);
        lemma_isqrt_unique(65536nat, 256nat);
        assert(len >= 256);
        lemma_norm_comp_bound(v.x, ns, len);
        lemma_norm_comp_bound(v.y, ns, len);
        lemma_norm_comp_bound(v.z, ns, len);
    }
}

/// The fixed-point square of a bounded value is nonnegative and bounded.
pub proof fn lemma_fx_sq_bounds(x: int, m: int)
    requires
        -m <= x <= m,
        0 <= m,
    ensures
        0 <= x * x <= m * m,
        0 <= spec_fx_mul(x, x) <= tdiv(m * m, FX_ONE as int),
{
    assert(0 <= x * x) by (nonlinear_arith);
    lemma_mul_bound(x, x, m, m);
    lemma_fx_mul_bound(x, x, m, m);
    lemma_tdiv_shrinks(x * x, FX_ONE as int);
    lemma_tdiv_shrinks(m * m, FX_ONE as int);
}

} // verus!
