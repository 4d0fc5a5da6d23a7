//! The bit-level scalar kernel against the machine's own floats.

use mmd_engine::scalar::{
    fabs, fadd, facos, fasin, fatan2, fclamp, fdiv, feq, ffloor, fle, flt, fmax, fmul, fneg,
    frem, fsub, float_to_usize, is_nan, lerp_f32, u32_to_float, usize_to_float,
};

fn sample_values() -> Vec<f32> {
    vec![
        0.0, -0.0, 1.0, -1.0, 0.5, -0.5, 1e-3, -1e-3, 1e-40, -1e-40, 3.0e38, -3.0e38,
        f32::INFINITY, f32::NEG_INFINITY, f32::NAN, 127.0, -42.25, 1e-45,
    ]
}

#[test]
fn comparisons_match_ieee() {
    for &a in &sample_values() {
        for &b in &sample_values() {
            assert_eq!(flt(a.to_bits(), b.to_bits()), a < b, "lt {a} {b}");
            assert_eq!(fle(a.to_bits(), b.to_bits()), a <= b, "le {a} {b}");
            assert_eq!(feq(a.to_bits(), b.to_bits()), a == b, "eq {a} {b}");
        }
        assert_eq!(is_nan(a.to_bits()), a.is_nan());
        assert_eq!(fabs(a.to_bits()), a.abs().to_bits(), "abs {a}");
        assert_eq!(fneg(a.to_bits()), (-a).to_bits(), "neg {a}");
    }
}

#[test]
fn arithmetic_matches_ieee() {
    let vals = sample_values();
    for &a in &vals {
        for &b in &vals {
            assert_eq!(fadd(a.to_bits(), b.to_bits()), (a + b).to_bits(), "add {a} {b}");
            assert_eq!(fsub(a.to_bits(), b.to_bits()), (a - b).to_bits(), "sub {a} {b}");
            assert_eq!(fmul(a.to_bits(), b.to_bits()), (a * b).to_bits(), "mul {a} {b}");
            assert_eq!(fdiv(a.to_bits(), b.to_bits()), (a / b).to_bits(), "div {a} {b}");
            assert_eq!(frem(a.to_bits(), b.to_bits()), (a % b).to_bits(), "rem {a} {b}");
        }
        assert_eq!(ffloor(a.to_bits()), a.floor().to_bits(), "floor {a}");
    }
}

#[test]
fn transcendentals_match_std() {
    // The expected values go through `black_box` so both sides take the
    // same runtime path instead of a compile-time folded one.
    for &a in &[-1.0f32, -0.5, 0.0, 0.5, 1.0] {
        let rt = std::hint::black_box(a);
        assert_eq!(facos(a.to_bits()), rt.acos().to_bits());
        assert_eq!(fasin(a.to_bits()), rt.asin().to_bits());
    }
    for &(y, x) in &[(1.0f32, 1.0f32), (-1.0, 0.5), (0.0, -2.0), (3.0, -4.0)] {
        let ry = std::hint::black_box(y);
        assert_eq!(fatan2(y.to_bits(), x.to_bits()), ry.atan2(x).to_bits());
    }
}

#[test]
fn casts_match_builtin() {
    for &n in &[0u32, 1, 30, 127, 1000, 16_777_216, u32::MAX] {
        assert_eq!(u32_to_float(n), (n as f32).to_bits());
    }
    for &n in &[0usize, 3, 255, 70_000] {
        assert_eq!(usize_to_float(n), (n as f32).to_bits());
    }
    for &a in &[0.0f32, 0.4, 0.9, 1.0, 17.8, 254.6, -3.0, f32::NAN, 1e30] {
        assert_eq!(float_to_usize(a.to_bits()), a as usize, "cast {a}");
    }
}

#[test]
fn clamp_max_lerp_behave() {
    let one = 1.0f32.to_bits();
    for &a in &sample_values() {
        let c = f32::from_bits(fclamp(a.to_bits(), 0, one));
        if a.is_nan() {
            assert!(c.is_nan());
        } else {
            assert_eq!(c, a.clamp(0.0, 1.0), "clamp {a}");
        }
    }
    assert_eq!(fmax((-2.0f32).to_bits(), one), one);
    assert_eq!(fmax(3.0f32.to_bits(), one), 3.0f32.to_bits());
    let r = lerp_f32(2.0f32.to_bits(), 6.0f32.to_bits(), 0.25f32.to_bits());
    assert_eq!(f32::from_bits(r), 3.0);
}

#[test]
fn named_constants_hold_their_values() {
    assert_eq!(f32::from_bits(0x3F80_0000), 1.0);
    assert_eq!(f32::from_bits(0x4000_0000), 2.0);
    assert_eq!(f32::from_bits(0x4040_0000), 3.0);
    assert_eq!(f32::from_bits(0x41F0_0000), 30.0);
    assert_eq!(f32::from_bits(0x437F_0000), 255.0);
    assert_eq!(f32::from_bits(0x3A83_126F), 1e-3);
    assert_eq!(f32::from_bits(0x3586_37BD), 1e-6);
    assert_eq!(f32::from_bits(0x38D1_B717), 1e-4);
    assert_eq!(f32::from_bits(0xBF80_0000), -1.0);
    assert_eq!(f32::from_bits(0xC234_0000), -45.0);
    assert_eq!(f32::from_bits(0x7F80_0000), f32::INFINITY);
    assert_eq!(f32::from_bits(0xC073_3333), -3.8);
    assert_eq!(f32::from_bits(0x4270_0000), 60.0);
    assert_eq!(f32::from_bits(0x3DCC_CCCD), 0.1);
    assert_eq!(f32::from_bits(0x3E99_999A), 0.3);
    assert_eq!(f32::from_bits(0x3E4C_CCCD), 0.2);
    assert_eq!(f32::from_bits(0x40A0_0000), 5.0);
}
