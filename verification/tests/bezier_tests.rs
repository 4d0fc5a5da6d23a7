//! Curve construction, evaluation and the cache.

use mmd_engine::bezier::{BezierCurve, CurveCache, CurvePoint};
use mmd_engine::interpolation::KeyframeInterpolationPoint;

fn p2(x: f32, y: f32) -> CurvePoint {
    CurvePoint { x: x.to_bits(), y: y.to_bits() }
}

fn value_f(curve: &BezierCurve, x: f32) -> f32 {
    f32::from_bits(curve.value(x.to_bits()))
}

#[test]
fn test_linear_curve() {
    let curve = BezierCurve::new(p2(0.25, 0.25), p2(0.75, 0.75), 100);
    assert!((value_f(&curve, 0.0) - 0.0).abs() < 0.01);
    assert!((value_f(&curve, 0.5) - 0.5).abs() < 0.05);
    assert!((value_f(&curve, 1.0) - 1.0).abs() < 0.01);
}

#[test]
fn test_ease_in_curve() {
    let curve = BezierCurve::new(p2(0.42, 0.0), p2(1.0, 1.0), 100);
    let v_quarter = value_f(&curve, 0.25);
    assert!(v_quarter < 0.25);
}

#[test]
fn test_cache() {
    let mut cache = CurveCache::new();
    let curve1 = cache.get_or_new([32, 32], [96, 96], 100);
    let curve2 = cache.get_or_new([32, 32], [96, 96], 100);
    // The second request is served from the cache: one entry, same table.
    assert_eq!(cache.entries.len(), 1);
    assert_eq!(curve1.points.len(), curve2.points.len());
    for (a, b) in curve1.points.iter().zip(curve2.points.iter()) {
        assert_eq!(a.x, b.x);
        assert_eq!(a.y, b.y);
    }
    assert_eq!(curve1.interval, 100);
}

#[test]
fn cache_rebuilds_sparser_entries() {
    let mut cache = CurveCache::new();
    let sparse = cache.get_or_new([10, 40], [90, 20], 8);
    assert_eq!(sparse.interval, 8);
    let dense = cache.get_or_new([10, 40], [90, 20], 64);
    assert_eq!(dense.interval, 64);
    assert_eq!(cache.entries.len(), 1);
    // A later, sparser request reuses the denser table.
    let reused = cache.get_or_new([10, 40], [90, 20], 16);
    assert_eq!(reused.interval, 64);
}

#[test]
fn linear_descriptor_round_trip() {
    // A diagonal descriptor is recognised as linear and passes the
    // coefficient through exactly.
    let ip = KeyframeInterpolationPoint::new(&[20, 20, 107, 107]);
    assert!(ip.is_linear);
    let mut cache = CurveCache::new();
    for i in 0..=127u32 {
        let x = (i as f32 / 127.0).to_bits();
        let y = ip.curve_value(30, x, &mut cache);
        assert_eq!(y, x);
    }
    // The raw curve of a diagonal descriptor tracks the identity within
    // the descriptor's own resolution.
    let curve = BezierCurve::from_parameters(&[63, 63, 63, 63], 127);
    for i in 0..=127u32 {
        let x = i as f32 / 127.0;
        let y = value_f(&curve, x);
        assert!((y - x).abs() <= 1.0 / 127.0, "x={x} y={y}");
    }
}

#[test]
fn curve_tables_are_sorted() {
    let curve = BezierCurve::from_parameters(&[10, 100, 120, 5], 64);
    for w in curve.points.windows(2) {
        assert!(f32::from_bits(w[0].x) <= f32::from_bits(w[1].x));
    }
}

#[test]
fn descriptor_bytes_round_trip() {
    let curve = BezierCurve::from_parameters(&[10, 40, 90, 20], 16);
    assert_eq!(curve.to_parameters(), [10, 40, 90, 20]);
}
