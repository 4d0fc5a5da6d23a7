//! Cubic Bézier sample tables for keyframe easing, with a cache keyed by
//! the two control points.
//!
//! A curve precomputes `interval + 1` points of the cubic with endpoints
//! `(0,0)` and `(1,1)`, sorts them by their x component and answers queries
//! by bracketing the query point and interpolating linearly between the two
//! neighbours, returning the earlier neighbour's y on a tie.

use vstd::prelude::*;

use crate::scalar::{
    add_bits, div_bits, fadd, fdiv, feq, fle, float_to_usize, float_to_usize_val, flt, fmul,
    fsub, mul_bits, spec_feq, spec_is_nan, spec_le, spec_lt, sub_bits, u32_to_float,
    u32_to_float_bits,
};

verus! {

/// IEEE 754 bit pattern of `1.0_f32`.
pub const P_ONE: u32 = 0x3F80_0000;

/// IEEE 754 bit pattern of `3.0_f32`.
pub const P_THREE: u32 = 0x4040_0000;

/// A point of the sample table, both coordinates as bit patterns.
#[derive(Clone, Copy, Debug, PartialEq, Eq, Structural)]
pub struct CurvePoint {
    pub x: u32,
    pub y: u32,
}

/// One coordinate of the cubic at parameter `t = i / interval`, mirroring
/// the evaluation order of the sample loop: with `it = 1 - t`, the sum
/// `p0 * it^3 + c0 * 3 * it^2 * t + c1 * 3 * it * t^2 + p1 * t^3` folded
/// left to right.
pub open spec fn spec_cubic_coord(c0: u32, c1: u32, i: u32, interval: u32) -> u32 {
    let t = div_bits(u32_to_float_bits(i), u32_to_float_bits(interval));
    let it = sub_bits(P_ONE, t);
    let it2 = mul_bits(it, it);
    let it3 = mul_bits(it2, it);
    let t2 = mul_bits(t, t);
    let t3 = mul_bits(t2, t);
    let term_a = mul_bits(0, it3);
    let term_b = mul_bits(mul_bits(mul_bits(c0, P_THREE), it2), t);
    let term_c = mul_bits(mul_bits(mul_bits(c1, P_THREE), it), t2);
    let term_d = mul_bits(P_ONE, t3);
    add_bits(add_bits(add_bits(term_a, term_b), term_c), term_d)
}

/// The i-th raw sample point of the cubic for control points `c0`, `c1`.
pub open spec fn spec_sample(c0: CurvePoint, c1: CurvePoint, interval: u32, i: u32) -> CurvePoint {
    CurvePoint {
        x: spec_cubic_coord(c0.x, c1.x, i, interval),
        y: spec_cubic_coord(c0.y, c1.y, i, interval),
    }
}

/// Whether `p` is one of the raw cubic samples for the given control
/// points and interval.
pub open spec fn is_sample_of(p: CurvePoint, c0: CurvePoint, c1: CurvePoint, interval: u32) -> bool {
    exists|i: u32| 0 <= i <= interval && p == #[trigger] spec_sample(c0, c1, interval, i)
}

/// Whether `s` is ordered by `<=` on the x components.
pub open spec fn spec_sorted_by_x(s: Seq<CurvePoint>) -> bool {
    forall|i: int, j: int| 0 <= i < j < s.len() ==> spec_le(#[trigger] s[i].x, #[trigger] s[j].x)
}

/// Whether any x component of `s` is a NaN.
pub open spec fn spec_has_nan_x(s: Seq<CurvePoint>) -> bool {
    exists|i: int| 0 <= i < s.len() && spec_is_nan(#[trigger] s[i].x)
}

/// Index of the bracket's right end: starting from 1, advance while the
/// right end's x does not exceed the query.
pub open spec fn spec_scan(s: Seq<CurvePoint>, v: u32, j: int) -> int
    decreases s.len() - j,
{
    if j < s.len() - 1 && !spec_lt(v, s[j].x) {
        spec_scan(s, v, j + 1)
    } else {
        j
    }
}

/// The curve's answer for query `v` over the sorted sample table `s`: the
/// bracketing neighbours are interpolated linearly; when their x components
/// are equal (IEEE equality) the earlier neighbour's y is returned.
pub open spec fn spec_curve_value(s: Seq<CurvePoint>, v: u32) -> u32
    recommends
        s.len() >= 2,
{
    let j = spec_scan(s, v, 1);
    let a = s[j - 1];
    let b = s[j];
    if spec_feq(a.x, b.x) {
        a.y
    } else {
        add_bits(a.y, div_bits(mul_bits(sub_bits(v, a.x), sub_bits(b.y, a.y)), sub_bits(b.x, a.x)))
    }
}

/// A precomputed cubic Bézier sample table.
#[derive(Clone, Debug)]
pub struct BezierCurve {
    /// The sample points, ordered by x.
    pub points: Vec<CurvePoint>,
    /// First control point.
    pub c0: CurvePoint,
    /// Second control point.
    pub c1: CurvePoint,
    /// Number of sample intervals; the table holds `interval + 1` points.
    pub interval: u32,
}

impl BezierCurve {
    /// Structural soundness: the table holds one point more than the
    /// interval count, the interval is positive, every point is one of the
    /// raw cubic samples, and the table is sorted wherever no NaN slipped
    /// in through the control points.
    pub open spec fn wf(self) -> bool {
        &&& self.interval >= 1
        &&& self.points@.len() == self.interval + 1
        &&& (forall|k: int|
            0 <= k < self.points@.len() ==> is_sample_of(
                #[trigger] self.points@[k],
                self.c0,
                self.c1,
                self.interval,
            ))
        &&& (!spec_has_nan_x(self.points@) ==> spec_sorted_by_x(self.points@))
    }

    /// First control point.
    pub fn c0(&self) -> (r: CurvePoint)
        ensures
            r == self.c0,
    {
        self.c0
    }

    /// Second control point.
    pub fn c1(&self) -> (r: CurvePoint)
        ensures
            r == self.c1,
    {
        self.c1
    }

    /// Number of sample intervals.
    pub fn interval(&self) -> (r: u32)
        ensures
            r == self.interval,
    {
        self.interval
    }

    /// The descriptor bytes the control points round back to: each
    /// coordinate scaled by `127` and truncated into a byte.
    pub fn to_parameters(&self) -> (r: [u8; 4])
        ensures
            r[0] == spec_descriptor_byte(self.c0.x),
            r[1] == spec_descriptor_byte(self.c0.y),
            r[2] == spec_descriptor_byte(self.c1.x),
            r[3] == spec_descriptor_byte(self.c1.y),
    {
        [
            descriptor_byte(self.c0.x),
            descriptor_byte(self.c0.y),
            descriptor_byte(self.c1.x),
            descriptor_byte(self.c1.y),
        ]
    }

    /// The sample table, ordered by x.
    pub fn points(&self) -> (r: &Vec<CurvePoint>)
        ensures
            r@ == self.points@,
    {
        &self.points
    }


    /// A field-for-field copy of the curve.
    pub fn duplicate(&self) -> (r: BezierCurve)
        ensures
            curve_eq(r, *self),
    {
        let mut points: Vec<CurvePoint> = Vec::new();
        let mut k: usize = 0;
        while k < self.points.len()
            invariant
                k <= self.points@.len(),
                points@ == self.points@.take(k as int),
            decreases self.points@.len() - k,
        {
            points.push(self.points[k]);
            proof {
                assert(points@ == self.points@.take(k as int + 1));
            }
            k = k + 1;
        }
        proof {
            assert(points@ == self.points@);
        }
        BezierCurve { points, c0: self.c0, c1: self.c1, interval: self.interval }
    }

    /// One raw sample of the cubic.
    fn sample(c0: CurvePoint, c1: CurvePoint, interval: u32, i: u32) -> (r: CurvePoint)
        ensures
            r == spec_sample(c0, c1, interval, i),
    {
        let t = fdiv(u32_to_float(i), u32_to_float(interval));
        let it = fsub(P_ONE, t);
        let it2 = fmul(it, it);
        let it3 = fmul(it2, it);
        let t2 = fmul(t, t);
        let t3 = fmul(t2, t);
        let xa = fmul(0, it3);
        let xb = fmul(fmul(fmul(c0.x, P_THREE), it2), t);
        let xc = fmul(fmul(fmul(c1.x, P_THREE), it), t2);
        let xd = fmul(P_ONE, t3);
        let ya = fmul(0, it3);
        let yb = fmul(fmul(fmul(c0.y, P_THREE), it2), t);
        let yc = fmul(fmul(fmul(c1.y, P_THREE), it), t2);
        let yd = fmul(P_ONE, t3);
        CurvePoint {
            x: fadd(fadd(fadd(xa, xb), xc), xd),
            y: fadd(fadd(fadd(ya, yb), yc), yd),
        }
    }

    /// Build the sample table for control points `c0`, `c1` with at least
    /// one interval, sorted by x.
    pub fn new(c0: CurvePoint, c1: CurvePoint, interval: u32) -> (r: BezierCurve)
        ensures
            r.wf(),
            r.c0 == c0,
            r.c1 == c1,
            r.interval == if interval >= 1 {
                interval
            } else {
                1
            },
    {
        let interval: u32 = if interval >= 1 {
            interval
        } else {
            1
        };
        let mut points: Vec<CurvePoint> = Vec::new();
        let n: u64 = (interval as u64) + 1;
        let mut i: u64 = 0;
        while i < n
            invariant
                1 <= interval,
                n == interval + 1,
                i <= n,
                points@.len() == i,
                forall|k: int|
                    0 <= k < points@.len() ==> points@[k] == spec_sample(
                        c0,
                        c1,
                        interval,
                        k as u32,
                    ),
            decreases n - i,
        {
            points.push(Self::sample(c0, c1, interval, i as u32));
            i = i + 1;
        }
        proof {
            assert forall|k: int| 0 <= k < points@.len() implies is_sample_of(
                #[trigger] points@[k],
                c0,
                c1,
                interval,
            ) by {
                let iw = k as u32;
                assert(points@[k] == spec_sample(c0, c1, interval, iw));
            }
        }
        let sorted = sort_points_by_x(points, Ghost(c0), Ghost(c1), Ghost(interval));
        BezierCurve { points: sorted, c0, c1, interval }
    }

    /// Build a curve from the four raw descriptor bytes, each scaled by
    /// `1 / 127` into the unit square.
    pub fn from_parameters(parameters: &[u8; 4], interval: u32) -> (r: BezierCurve)
        ensures
            r.wf(),
            r.c0 == spec_scaled_control(parameters[0], parameters[1]),
            r.c1 == spec_scaled_control(parameters[2], parameters[3]),
            r.interval == if interval >= 1 {
                interval
            } else {
                1
            },
    {
        let c0 = scaled_control(parameters[0], parameters[1]);
        let c1 = scaled_control(parameters[2], parameters[3]);
        Self::new(c0, c1, interval)
    }

    /// The curve's value at `v`: bracket the query in the sorted table and
    /// interpolate linearly between the two neighbours.
    pub fn value(&self, v: u32) -> (r: u32)
        requires
            self.wf(),
        ensures
            r == spec_curve_value(self.points@, v),
    {
        let ghost sq = self.points@;
        proof {
            assert(sq.len() >= 2);
        }
        let mut j: usize = 1;
        loop
            invariant
                self.wf(),
                sq == self.points@,
                sq.len() >= 2,
                1 <= j < sq.len(),
                spec_scan(sq, v, 1) == spec_scan(sq, v, j as int),
            ensures
                1 <= j < sq.len(),
                spec_scan(sq, v, 1) == j as int,
            decreases sq.len() - j,
        {
            if j < self.points.len() - 1 && !flt(v, self.points[j].x) {
                proof {
                    assert(j as int + 1 < sq.len());
                    assert(!spec_lt(v, sq[j as int].x));
                    assert(spec_scan(sq, v, j as int) == spec_scan(sq, v, j as int + 1));
                }
                j = j + 1;
            } else {
                proof {
                    assert(spec_scan(sq, v, j as int) == j as int);
                }
                break;
            }
        }
        let a = self.points[j - 1];
        let b = self.points[j];
        if feq(a.x, b.x) {
            a.y
        } else {
            fadd(a.y, fdiv(fmul(fsub(v, a.x), fsub(b.y, a.y)), fsub(b.x, a.x)))
        }
    }
}

/// One control coordinate scaled by `127` and truncated into a byte (a
/// saturating cast).
pub open spec fn spec_descriptor_byte(c: u32) -> u8 {
    let v = float_to_usize_val(mul_bits(c, u32_to_float_bits(127)));
    if v > 255 {
        255u8
    } else {
        v as u8
    }
}

/// One control coordinate scaled by `127` and truncated into a byte.
fn descriptor_byte(c: u32) -> (r: u8)
    ensures
        r == spec_descriptor_byte(c),
{
    let v = float_to_usize(fmul(c, u32_to_float(127)));
    if v > 255 {
        255u8
    } else {
        v as u8
    }
}

/// A raw descriptor byte pair scaled into the unit square: each byte over
/// `127.0`.
pub open spec fn spec_scaled_control(a: u8, b: u8) -> CurvePoint {
    CurvePoint {
        x: div_bits(u32_to_float_bits(a as u32), u32_to_float_bits(127)),
        y: div_bits(u32_to_float_bits(b as u32), u32_to_float_bits(127)),
    }
}

/// Scale a raw descriptor byte pair into the unit square.
pub fn scaled_control(a: u8, b: u8) -> (r: CurvePoint)
    ensures
        r == spec_scaled_control(a, b),
{
    CurvePoint {
        x: fdiv(u32_to_float(a as u32), u32_to_float(127)),
        y: fdiv(u32_to_float(b as u32), u32_to_float(127)),
    }
}

/// Insertion sort of the sample points by their x component. Each element
/// of the result is an element of the input; the result is sorted whenever
/// no x component is NaN.
fn sort_points_by_x(input: Vec<CurvePoint>, c0: Ghost<CurvePoint>, c1: Ghost<CurvePoint>, interval: Ghost<u32>) -> (r: Vec<
    CurvePoint,
>)
    requires
        forall|k: int|
            0 <= k < input@.len() ==> is_sample_of(#[trigger] input@[k], c0@, c1@, interval@),
    ensures
        r@.len() == input@.len(),
        forall|k: int|
            0 <= k < r@.len() ==> is_sample_of(#[trigger] r@[k], c0@, c1@, interval@),
        !spec_has_nan_x(r@) ==> spec_sorted_by_x(r@),
{
    let mut out: Vec<CurvePoint> = Vec::new();
    let mut k: usize = 0;
    while k < input.len()
        invariant
            k <= input@.len(),
            out@.len() == k,
            forall|k2: int|
                0 <= k2 < input@.len() ==> is_sample_of(#[trigger] input@[k2], c0@, c1@, interval@),
            forall|k2: int|
                0 <= k2 < out@.len() ==> is_sample_of(#[trigger] out@[k2], c0@, c1@, interval@),
            !spec_has_nan_x(out@) ==> spec_sorted_by_x(out@),
        decreases input@.len() - k,
    {
        let x = input[k];
        let mut pos: usize = 0;
        while pos < out.len() && fle(out[pos].x, x.x)
            invariant
                pos <= out@.len(),
                forall|k2: int| 0 <= k2 < pos ==> spec_le(#[trigger] out@[k2].x, x.x),
            decreases out@.len() - pos,
        {
            pos = pos + 1;
        }
        let ghost old_out = out@;
        out.insert(pos, x);
        proof {
            assert forall|k2: int|
                0 <= k2 < out@.len() implies is_sample_of(
                #[trigger] out@[k2],
                c0@,
                c1@,
                interval@,
            ) by {
                if k2 < pos {
                    assert(out@[k2] == old_out[k2]);
                } else if k2 == pos {
                    assert(out@[k2] == x);
                } else {
                    assert(out@[k2] == old_out[k2 - 1]);
                }
            }
            assert(!spec_has_nan_x(out@) ==> spec_sorted_by_x(out@)) by {
                if !spec_has_nan_x(out@) {
                    assert(!spec_has_nan_x(old_out)) by {
                        if spec_has_nan_x(old_out) {
                            let i0 = choose|i0: int|
                                0 <= i0 < old_out.len() && spec_is_nan(old_out[i0].x);
                            if i0 < pos {
                                assert(out@[i0] == old_out[i0]);
                                assert(spec_is_nan(out@[i0].x));
                            } else {
                                assert(out@[i0 + 1] == old_out[i0]);
                                assert(spec_is_nan(out@[i0 + 1].x));
                            }
                        }
                    };
                    assert(spec_sorted_by_x(old_out));
                    assert forall|i: int, j: int| 0 <= i < j < out@.len() implies spec_le(
                        #[trigger] out@[i].x,
                        #[trigger] out@[j].x,
                    ) by {
                        assert(!spec_is_nan(out@[i].x));
                        assert(!spec_is_nan(out@[j].x));
                        if i < pos {
                            assert(out@[i] == old_out[i]);
                        }
                        if j < pos {
                            assert(out@[j] == old_out[j]);
                        }
                        if i > pos {
                            assert(out@[i] == old_out[i - 1]);
                        }
                        if j > pos {
                            assert(out@[j] == old_out[j - 1]);
                        }
                        if j == pos {
                            assert(spec_le(out@[i].x, x.x));
                        }
                        if i == pos {
                            // x was not `<=`-below the element at `pos`,
                            // and neither side is NaN, so it is `<=` above.
                            assert(!(pos < old_out.len() && spec_le(old_out[pos as int].x, x.x)));
                            assert(spec_le(x.x, out@[j].x));
                        }
                    }
                }
            }
        }
        k = k + 1;
    }
    out
}

/// Whether two curves hold the same data.
pub open spec fn curve_eq(a: BezierCurve, b: BezierCurve) -> bool {
    &&& a.points@ == b.points@
    &&& a.c0 == b.c0
    &&& a.c1 == b.c1
    &&& a.interval == b.interval
}

/// The cache key packing the four raw descriptor bytes.
pub open spec fn spec_curve_key(c0: [u8; 2], c1: [u8; 2]) -> u32 {
    (c0[0] as u32) | ((c0[1] as u32) << 8) | ((c1[0] as u32) << 16) | ((c1[1] as u32) << 24)
}

/// First entry of `s` whose key equals `key`, if any.
pub open spec fn spec_cache_lookup(s: Seq<(u32, BezierCurve)>, key: u32) -> Option<BezierCurve>
    decreases s.len(),
{
    if s.len() == 0 {
        None
    } else if s[0].0 == key {
        Some(s[0].1)
    } else {
        spec_cache_lookup(s.drop_first(), key)
    }
}

/// If `idx` is the first index of `s` carrying `key`, the lookup returns
/// that entry's curve.
proof fn lemma_lookup_at(s: Seq<(u32, BezierCurve)>, key: u32, idx: int)
    requires
        0 <= idx < s.len(),
        s[idx].0 == key,
        forall|j: int| 0 <= j < idx ==> (#[trigger] s[j]).0 != key,
    ensures
        spec_cache_lookup(s, key) == Some(s[idx].1),
    decreases idx,
{
    if idx == 0 {
    } else {
        assert(s[0].0 != key);
        assert(s.drop_first()[idx - 1] == s[idx]);
        assert(forall|j: int|
            0 <= j < idx - 1 ==> (#[trigger] s.drop_first()[j]) == s[j + 1]);
        lemma_lookup_at(s.drop_first(), key, idx - 1);
    }
}

/// If no entry of `s` carries `key`, the lookup returns nothing.
proof fn lemma_lookup_none(s: Seq<(u32, BezierCurve)>, key: u32)
    requires
        forall|j: int| 0 <= j < s.len() ==> (#[trigger] s[j]).0 != key,
    ensures
        spec_cache_lookup(s, key) is None,
    decreases s.len(),
{
    if s.len() == 0 {
    } else {
        assert(forall|j: int|
            0 <= j < s.len() - 1 ==> (#[trigger] s.drop_first()[j]) == s[j + 1]);
        lemma_lookup_none(s.drop_first(), key);
    }
}

/// A cache of curves keyed by their packed descriptor bytes. A hit whose
/// sample density reaches the requested one is reused; a miss or a sparser
/// hit rebuilds the entry at the requested density.
#[derive(Debug)]
pub struct CurveCache {
    /// The entries, at most one per key.
    pub entries: Vec<(u32, BezierCurve)>,
}

impl CurveCache {
    /// All cached curves are sound tables.
    pub open spec fn wf(self) -> bool {
        forall|j: int| 0 <= j < self.entries@.len() ==> (#[trigger] self.entries@[j]).1.wf()
    }

    /// An empty cache.
    pub fn new() -> (r: CurveCache)
        ensures
            r.wf(),
            r.entries@.len() == 0,
    {
        CurveCache { entries: Vec::new() }
    }

    /// Fetch the curve for the descriptor bytes `(c0, c1)` with at least
    /// `interval` sample intervals, reusing a cached table when its density
    /// suffices and rebuilding it otherwise.
    pub fn get_or_new(&mut self, c0: [u8; 2], c1: [u8; 2], interval: u32) -> (r: BezierCurve)
        requires
            old(self).wf(),
        ensures
            final(self).wf(),
            r.wf(),
            spec_cache_lookup(final(self).entries@, spec_curve_key(c0, c1)) matches Some(c)
                && curve_eq(c, r),
            match spec_cache_lookup(old(self).entries@, spec_curve_key(c0, c1)) {
                Some(c) => {
                    if c.interval >= interval {
                        curve_eq(r, c) && final(self).entries@ == old(self).entries@
                    } else {
                        r.c0 == spec_scaled_control(c0[0], c0[1]) && r.c1 == spec_scaled_control(
                            c1[0],
                            c1[1],
                        ) && r.interval == if interval >= 1 {
                            interval as int
                        } else {
                            1
                        }
                    }
                },
                None => {
                    r.c0 == spec_scaled_control(c0[0], c0[1]) && r.c1 == spec_scaled_control(
                        c1[0],
                        c1[1],
                    ) && r.interval == if interval >= 1 {
                        interval as int
                    } else {
                        1
                    }
                },
            },
    {
        let key: u32 = (c0[0] as u32) | ((c0[1] as u32) << 8) | ((c1[0] as u32) << 16) | ((c1[1]
            as u32) << 24);
        proof {
            assert(key == spec_curve_key(c0, c1));
        }
        let mut idx: usize = 0;
        loop
            invariant
                old(self) == self,
                self.wf(),
                idx <= self.entries@.len(),
                forall|j: int| 0 <= j < idx ==> (#[trigger] self.entries@[j]).0 != key,
            ensures
                old(self) == self,
                idx <= self.entries@.len(),
                forall|j: int| 0 <= j < idx ==> (#[trigger] self.entries@[j]).0 != key,
                idx < self.entries@.len() ==> self.entries@[idx as int].0 == key,
                idx == self.entries@.len() ==> spec_cache_lookup(self.entries@, key) is None,
            decreases self.entries@.len() - idx,
        {
            if idx >= self.entries.len() {
                proof {
                    lemma_lookup_none(self.entries@, key);
                }
                break;
            }
            if self.entries[idx].0 == key {
                break;
            }
            idx = idx + 1;
        }
        if idx < self.entries.len() {
            proof {
                lemma_lookup_at(self.entries@, key, idx as int);
            }
            if self.entries[idx].1.interval >= interval {
                let r = self.entries[idx].1.duplicate();
                return r;
            }
            let parameters: [u8; 4] = [c0[0], c0[1], c1[0], c1[1]];
            let curve = BezierCurve::from_parameters(&parameters, interval);
            let r = curve.duplicate();
            self.entries.set(idx, (key, curve));
            proof {
                lemma_lookup_at(self.entries@, key, idx as int);
            }
            return r;
        }
        let parameters: [u8; 4] = [c0[0], c0[1], c1[0], c1[1]];
        let curve = BezierCurve::from_parameters(&parameters, interval);
        let r = curve.duplicate();
        self.entries.push((key, curve));
        proof {
            lemma_lookup_at(self.entries@, key, idx as int);
        }
        return r;
    }
}

} // verus!
