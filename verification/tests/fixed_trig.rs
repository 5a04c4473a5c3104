use engine_core::fixed::{fx_clamp, fx_div, fx_mul, fx_sqrt, isqrt_u64, Vec3Fx, FX_HALF, FX_ONE};
use engine_core::trig::{cos_fx, sin_fx, wrap_angle, HALF_PI_FX, PI_FX, TWO_PI_FX};

#[test]
fn fx_mul_rounds_toward_zero() {
    assert_eq!(fx_mul(FX_ONE, FX_ONE), FX_ONE);
    assert_eq!(fx_mul(3 * FX_ONE, 2 * FX_ONE), 6 * FX_ONE);
    assert_eq!(fx_mul(-3 * FX_ONE, 2 * FX_ONE), -6 * FX_ONE);
    assert_eq!(fx_mul(-3 * FX_ONE, -2 * FX_ONE), 6 * FX_ONE);
    // 1.5 * 0.5 = 0.75
    assert_eq!(fx_mul(FX_ONE + FX_HALF, FX_HALF), 49152);
    // truncation is toward zero on both signs: (+-1) * 0.5 fixed units
    assert_eq!(fx_mul(1, FX_HALF), 0);
    assert_eq!(fx_mul(-1, FX_HALF), 0);
    assert_eq!(fx_mul(7, 0), 0);
}

#[test]
fn fx_div_rounds_toward_zero() {
    assert_eq!(fx_div(FX_ONE, 2 * FX_ONE), FX_HALF);
    assert_eq!(fx_div(-FX_ONE, 2 * FX_ONE), -FX_HALF);
    assert_eq!(fx_div(FX_ONE, -2 * FX_ONE), -FX_HALF);
    assert_eq!(fx_div(-FX_ONE, -2 * FX_ONE), FX_HALF);
    assert_eq!(fx_div(6 * FX_ONE, 3 * FX_ONE), 2 * FX_ONE);
    // 1 / 3 in fixed point truncates
    assert_eq!(fx_div(FX_ONE, 3 * FX_ONE), 21845);
}

#[test]
fn integer_square_root_is_exact_at_squares() {
    assert_eq!(isqrt_u64(0), 0);
    assert_eq!(isqrt_u64(1), 1);
    assert_eq!(isqrt_u64(3), 1);
    assert_eq!(isqrt_u64(4), 2);
    assert_eq!(isqrt_u64(65536), 256);
    assert_eq!(isqrt_u64(u64::MAX), 0xFFFF_FFFF);
    assert_eq!(fx_sqrt(FX_ONE), FX_ONE);
    assert_eq!(fx_sqrt(4 * FX_ONE), 2 * FX_ONE);
    assert_eq!(fx_sqrt(0), 0);
}

#[test]
fn normalize_keeps_unit_axes() {
    let v = Vec3Fx { x: FX_ONE, y: 0, z: 0 };
    assert_eq!(v.normalize(), Vec3Fx { x: FX_ONE, y: 0, z: 0 });
    let w = Vec3Fx { x: 0, y: -FX_ONE, z: 0 };
    assert_eq!(w.normalize(), Vec3Fx { x: 0, y: -FX_ONE, z: 0 });
    let zero = Vec3Fx { x: 0, y: 0, z: 0 };
    assert_eq!(zero.normalize(), zero);
    // a longer axis-aligned vector still normalizes to the unit axis
    let long = Vec3Fx { x: 0, y: 0, z: 25 * FX_ONE };
    assert_eq!(long.normalize(), Vec3Fx { x: 0, y: 0, z: FX_ONE });
}

#[test]
fn clamp_cuts_both_sides() {
    assert_eq!(fx_clamp(5, -3, 3), 3);
    assert_eq!(fx_clamp(-5, -3, 3), -3);
    assert_eq!(fx_clamp(2, -3, 3), 2);
}

#[test]
fn wrap_angle_stays_in_one_turn() {
    assert_eq!(wrap_angle(0), 0);
    assert_eq!(wrap_angle(PI_FX), -PI_FX);
    assert_eq!(wrap_angle(TWO_PI_FX), 0);
    assert_eq!(wrap_angle(-TWO_PI_FX), 0);
    assert_eq!(wrap_angle(PI_FX + 5), -PI_FX + 5);
    assert_eq!(wrap_angle(7 * TWO_PI_FX + 123), 123);
    let r = wrap_angle(-987654321);
    assert!(-PI_FX <= r && r < PI_FX);
}

#[test]
fn sine_and_cosine_exact_points() {
    assert_eq!(sin_fx(0), 0);
    assert_eq!(cos_fx(0), FX_ONE);
    assert_eq!(sin_fx(HALF_PI_FX), FX_ONE);
    assert_eq!(sin_fx(PI_FX), 0);
    assert_eq!(sin_fx(-HALF_PI_FX), -FX_ONE);
    assert_eq!(cos_fx(PI_FX), -FX_ONE);
}

#[test]
fn sine_stays_bounded_and_close() {
    // the half-period approximation stays within the unit and lands close
    // to the real sine at a spread of angles
    let samples: [(i64, f64); 5] = [
        (HALF_PI_FX / 3, (std::f64::consts::PI / 6.0).sin()),
        (HALF_PI_FX / 2, (std::f64::consts::PI / 4.0).sin()),
        (2 * HALF_PI_FX / 3, (std::f64::consts::PI / 3.0).sin()),
        (-HALF_PI_FX / 2, -(std::f64::consts::PI / 4.0).sin()),
        (PI_FX + HALF_PI_FX, -1.0),
    ];
    for (a, expected) in samples {
        let got = sin_fx(a) as f64 / FX_ONE as f64;
        assert!(sin_fx(a) <= FX_ONE && sin_fx(a) >= -FX_ONE);
        assert!((got - expected).abs() < 0.01, "sin({a}) = {got}, wanted {expected}");
    }
}
