//! Fixed-point sine and cosine.
//!
//! Angles are fixed-point radians. The implementation reduces the angle into
//! one period and evaluates a rational approximation on the half period; both
//! steps are ordinary integer arithmetic, so the functions are specified
//! exactly by the spec functions below. The values at 0 and at a quarter turn
//! are exact.

use vstd::prelude::*;

verus! {

use crate::fixed::FX_ONE;
use vstd::arithmetic::div_mod::{
    lemma_small_mod,
    lemma_mod_sub_multiples_vanish,
    lemma_mod_add_multiples_vanish,
    lemma_div_is_ordered,
};

/// Half a turn (pi) in fixed-point radians; even, so that a quarter turn is
/// representable exactly.
pub const PI_FX: i64 = 205888;

/// A quarter turn (pi / 2) in fixed-point radians.
pub const HALF_PI_FX: i64 = 102944;

/// A full turn (2 * pi) in fixed-point radians.
pub const TWO_PI_FX: i64 = 411776;

/// The largest angle magnitude the trigonometric entry points accept.
pub const ANGLE_LIM: i64 = 0x1_0000_0000_0000;

/// The angle translated by whole turns into [-pi, pi).
pub open spec fn spec_wrap_angle(a: int) -> int {
    ((a + PI_FX) % (TWO_PI_FX as int)) - PI_FX
}

/// Translate an angle by whole turns into [-pi, pi).
pub fn wrap_angle(a: i64) -> (r: i64)
    requires
        -ANGLE_LIM <= a <= ANGLE_LIM,
    ensures
        r == spec_wrap_angle(a as int),
        -PI_FX <= r < PI_FX,
{
    let mut x: i64 = a;
    while x >= PI_FX
        invariant
            spec_wrap_angle(x as int) == spec_wrap_angle(a as int),
            -ANGLE_LIM <= x <= ANGLE_LIM,
        decreases x + TWO_PI_FX,
    {
        proof {
            lemma_mod_sub_multiples_vanish((x + PI_FX) as int, TWO_PI_FX as int);
        }
        x = x - TWO_PI_FX;
    }
    while x < -PI_FX
        invariant
            spec_wrap_angle(x as int) == spec_wrap_angle(a as int),
            -ANGLE_LIM <= x < PI_FX,
        decreases TWO_PI_FX - x,
    {
        proof {
            lemma_mod_add_multiples_vanish((x + PI_FX) as int, TWO_PI_FX as int);
        }
        x = x + TWO_PI_FX;
    }
    proof {
        lemma_small_mod((x + PI_FX) as nat, TWO_PI_FX as nat);
    }
    x
}

/// The rational half-period approximation of sine on [0, pi], in fixed
/// point: 16 x (pi - x) / (5 pi^2 - 4 x (pi - x)), all quantities scaled.
pub open spec fn spec_sin_half(x: int) -> int {
    let t = x * (PI_FX - x);
    (16 * t * FX_ONE) / (5 * (PI_FX as int) * (PI_FX as int) - 4 * t)
}

/// On [0, pi], x (pi - x) stays within [0, pi^2 / 4].
proof fn lemma_arc_product_bounds(x: int)
    requires
        0 <= x <= PI_FX,
    ensures
        0 <= x * (PI_FX - x),
        4 * (x * (PI_FX - x)) <= (PI_FX as int) * (PI_FX as int),
{
    assert(0 <= x * (PI_FX - x) && 4 * (x * (PI_FX - x)) <= (PI_FX as int) * (PI_FX as int))
        by (nonlinear_arith)
        requires
            0 <= x <= PI_FX,
    ;
}

/// Evaluate the half-period sine approximation.
fn sin_half(x: i64) -> (r: i64)
    requires
        0 <= x <= PI_FX,
    ensures
        r == spec_sin_half(x as int),
        0 <= r <= FX_ONE,
{
    proof {
        lemma_arc_product_bounds(x as int);
    }
    let t: i64 = x * (PI_FX - x);
    let num: u64 = 16 * (t as u64) * (FX_ONE as u64);
    let den: u64 = (5 * (PI_FX as u64) * (PI_FX as u64)) - 4 * (t as u64);
    proof {
        assert(den >= (PI_FX as int) * (PI_FX as int) * 4) by (nonlinear_arith)
            requires
                den == 5 * (PI_FX as int) * (PI_FX as int) - 4 * (t as int),
                4 * (t as int) <= (PI_FX as int) * (PI_FX as int),
        ;
        assert((PI_FX as int) * (PI_FX as int) * 4 > 0) by (nonlinear_arith);
    }
    let q: u64 = num / den;
    proof {
        assert(num <= den * (FX_ONE as int)) by (nonlinear_arith)
            requires
                num == 16 * (t as int) * (FX_ONE as int),
                den == 5 * (PI_FX as int) * (PI_FX as int) - 4 * (t as int),
                4 * (t as int) <= (PI_FX as int) * (PI_FX as int),
                0 <= t as int,
        ;
        lemma_div_is_ordered(num as int, den * (FX_ONE as int), den as int);
        assert((den * (FX_ONE as int)) / (den as int) == FX_ONE) by (nonlinear_arith)
            requires
                den > 0,
        ;
    }
    q as i64
}

/// Fixed-point sine: the angle wrapped into [-pi, pi), the half-period
/// approximation on the magnitude, the sign of the angle.
pub open spec fn spec_sin_fx(a: int) -> int {
    let w = spec_wrap_angle(a);
    if w >= 0 {
        spec_sin_half(w)
    } else {
        -spec_sin_half(-w)
    }
}

/// Fixed-point cosine: sine shifted by a quarter turn.
pub open spec fn spec_cos_fx(a: int) -> int {
    spec_sin_fx(a + HALF_PI_FX)
}

/// Fixed-point sine of an angle in fixed-point radians.
pub fn sin_fx(a: i64) -> (r: i64)
    requires
        -ANGLE_LIM <= a <= ANGLE_LIM,
    ensures
        r == spec_sin_fx(a as int),
        -FX_ONE <= r <= FX_ONE,
{
    let w: i64 = wrap_angle(a);
    if w >= 0 {
        sin_half(w)
    } else {
        let s: i64 = sin_half(-w);
        -s
    }
}

/// Fixed-point cosine of an angle in fixed-point radians.
pub fn cos_fx(a: i64) -> (r: i64)
    requires
        -ANGLE_LIM + HALF_PI_FX <= a <= ANGLE_LIM - HALF_PI_FX,
    ensures
        r == spec_cos_fx(a as int),
        -FX_ONE <= r <= FX_ONE,
{
    sin_fx(a + HALF_PI_FX)
}

/// The sine of 0 is exactly 0.
pub proof fn lemma_sin_zero()
    ensures
        spec_sin_fx(0) == 0,
{
    lemma_small_mod(PI_FX as nat, TWO_PI_FX as nat);
    assert(spec_wrap_angle(0) == 0);
    assert(spec_sin_half(0) == 0);
}

/// The cosine of 0 is exactly 1.
pub proof fn lemma_cos_zero()
    ensures
        spec_cos_fx(0) == FX_ONE,
{
    lemma_small_mod((HALF_PI_FX + PI_FX) as nat, TWO_PI_FX as nat);
    assert(spec_wrap_angle(HALF_PI_FX as int) == HALF_PI_FX);
    let h = HALF_PI_FX as int;
    let t = h * (PI_FX - h);
    assert(t == h * h);
    assert(16 * t * FX_ONE == (5 * (PI_FX as int) * (PI_FX as int) - 4 * t) * FX_ONE
        && 5 * (PI_FX as int) * (PI_FX as int) - 4 * t > 0) by (nonlinear_arith)
        requires
            t == h * h,
            PI_FX == 2 * h,
            h == 102944,
    ;
    crate::fixed::lemma_mul_div_exact(FX_ONE as int, 5 * (PI_FX as int) * (PI_FX as int) - 4 * t);
    assert((5 * (PI_FX as int) * (PI_FX as int) - 4 * t) * FX_ONE == FX_ONE * (5 * (PI_FX as int)
        * (PI_FX as int) - 4 * t)) by (nonlinear_arith);
    assert(spec_sin_half(h) == FX_ONE);
}

} // verus!
