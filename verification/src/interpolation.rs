//! Keyframe interpolation descriptors and the frame coefficient.
//!
//! A descriptor carries two Bézier control points as raw bytes in
//! `[0, 127]`; it is linear exactly when each control point lies on the
//! diagonal, in which case evaluation passes the coefficient through
//! unchanged.

use vstd::prelude::*;

use crate::bezier::{
    spec_cache_lookup, spec_curve_key, spec_curve_value, CurveCache,
};
use crate::scalar::{
    add_bits, div_bits, fadd, fclamp, fmul, fsub, mul_bits, spec_clamp, sub_bits, u32_to_float,
    u32_to_float_bits, float_to_usize, float_to_usize_val,
};
use crate::algebra::V3;

verus! {

/// IEEE 754 bit pattern of `1.0_f32`.
pub const C_ONE: u32 = 0x3F80_0000;

/// IEEE 754 bit pattern of `255.0_f32`.
pub const C_255: u32 = 0x437F_0000;

/// The interpolation coefficient for `frame` between the keyframes at
/// `prev` and `next`: their distance into the interval, clamped to the
/// unit range; one when the interval is empty.
pub open spec fn spec_coefficient(prev: u32, next: u32, frame: u32) -> u32 {
    if prev >= next {
        C_ONE
    } else {
        let sat = if frame >= prev {
            (frame - prev) as u32
        } else {
            0u32
        };
        spec_clamp(
            div_bits(u32_to_float_bits(sat), u32_to_float_bits((next - prev) as u32)),
            0,
            C_ONE,
        )
    }
}

/// The interpolation coefficient for `frame` between `prev` and `next`.
pub fn coefficient(prev_frame_index: u32, next_frame_index: u32, frame_index: u32) -> (r: u32)
    ensures
        r == spec_coefficient(prev_frame_index, next_frame_index, frame_index),
{
    if prev_frame_index >= next_frame_index {
        C_ONE
    } else {
        let interval = next_frame_index - prev_frame_index;
        let sat: u32 = if frame_index >= prev_frame_index {
            frame_index - prev_frame_index
        } else {
            0
        };
        fclamp(fdiv_local(sat, interval), 0, C_ONE)
    }
}

/// Quotient of two frame counts as floats.
fn fdiv_local(a: u32, b: u32) -> (r: u32)
    ensures
        r == div_bits(u32_to_float_bits(a), u32_to_float_bits(b)),
{
    crate::scalar::fdiv(u32_to_float(a), u32_to_float(b))
}

/// One interpolation descriptor: two Bézier control points as raw bytes,
/// plus the precomputed linearity flag.
#[derive(Clone, Copy, Debug)]
pub struct KeyframeInterpolationPoint {
    /// First control point `(x, y)`.
    pub control_point1: [u8; 2],
    /// Second control point `(x, y)`.
    pub control_point2: [u8; 2],
    /// Whether the descriptor is linear.
    pub is_linear: bool,
}

/// The default descriptor: the diagonal control points `(20, 20)` and
/// `(107, 107)`, marked linear.
pub open spec fn spec_kip_default() -> KeyframeInterpolationPoint {
    KeyframeInterpolationPoint {
        control_point1: [20u8, 20u8],
        control_point2: [107u8, 107u8],
        is_linear: true,
    }
}

/// Whether the four raw bytes denote a linear descriptor: both control
/// points on the diagonal.
pub open spec fn spec_is_linear(interpolation: [u8; 4]) -> bool {
    interpolation[0] == interpolation[1] && interpolation[2] == interpolation[3]
}

/// The descriptor built from four raw bytes: the default when they are
/// linear, else the two control points taken verbatim.
pub open spec fn spec_kip_new(interpolation: [u8; 4]) -> KeyframeInterpolationPoint {
    if spec_is_linear(interpolation) {
        spec_kip_default()
    } else {
        KeyframeInterpolationPoint {
            control_point1: [interpolation[0], interpolation[1]],
            control_point2: [interpolation[2], interpolation[3]],
            is_linear: false,
        }
    }
}

/// One byte interpolated toward another: `a * (1 - t) + b * t`, clamped to
/// the byte range and truncated.
pub open spec fn spec_lerp_u8(a: u8, b: u8, t: u32) -> u8 {
    let raw = add_bits(
        mul_bits(u32_to_float_bits(a as u32), sub_bits(C_ONE, t)),
        mul_bits(u32_to_float_bits(b as u32), t),
    );
    let clamped = spec_clamp(raw, 0, C_255);
    let v = float_to_usize_val(clamped);
    if v > 255 {
        255u8
    } else {
        v as u8
    }
}

/// The descriptor whose control points are interpolated byte by byte;
/// the linearity flag keeps the first descriptor's value.
pub open spec fn spec_kip_lerp(
    a: KeyframeInterpolationPoint,
    b: KeyframeInterpolationPoint,
    t: u32,
) -> KeyframeInterpolationPoint {
    KeyframeInterpolationPoint {
        control_point1: [
            spec_lerp_u8(a.control_point1[0], b.control_point1[0], t),
            spec_lerp_u8(a.control_point1[1], b.control_point1[1], t),
        ],
        control_point2: [
            spec_lerp_u8(a.control_point2[0], b.control_point2[0], t),
            spec_lerp_u8(a.control_point2[1], b.control_point2[1], t),
        ],
        is_linear: a.is_linear,
    }
}

/// One byte interpolated toward another.
pub fn lerp_u8(a: u8, b: u8, t: u32) -> (r: u8)
    ensures
        r == spec_lerp_u8(a, b, t),
{
    let raw = fadd(
        fmul(u32_to_float(a as u32), fsub(C_ONE, t)),
        fmul(u32_to_float(b as u32), t),
    );
    let clamped = fclamp(raw, 0, C_255);
    let v = float_to_usize(clamped);
    if v > 255 {
        255u8
    } else {
        v as u8
    }
}

impl KeyframeInterpolationPoint {
    /// The default linear descriptor.
    pub fn zero() -> (r: KeyframeInterpolationPoint)
        ensures
            r == spec_kip_default(),
    {
        KeyframeInterpolationPoint {
            control_point1: [20, 20],
            control_point2: [107, 107],
            is_linear: true,
        }
    }

    /// Whether four raw descriptor bytes denote a linear descriptor.
    pub fn is_linear_interpolation(interpolation: &[u8; 4]) -> (r: bool)
        ensures
            r == spec_is_linear(*interpolation),
    {
        interpolation[0] == interpolation[1] && interpolation[2] == interpolation[3]
    }

    /// Build a descriptor from four raw bytes.
    pub fn new(interpolation: &[u8; 4]) -> (r: KeyframeInterpolationPoint)
        ensures
            r == spec_kip_new(*interpolation),
    {
        if Self::is_linear_interpolation(interpolation) {
            Self::zero()
        } else {
            KeyframeInterpolationPoint {
                control_point1: [interpolation[0], interpolation[1]],
                control_point2: [interpolation[2], interpolation[3]],
                is_linear: false,
            }
        }
    }

    /// The descriptor's four raw bytes.
    pub fn bezier_control_point(&self) -> (r: [u8; 4])
        ensures
            r[0] == self.control_point1[0],
            r[1] == self.control_point1[1],
            r[2] == self.control_point2[0],
            r[3] == self.control_point2[1],
    {
        [
            self.control_point1[0],
            self.control_point1[1],
            self.control_point2[0],
            self.control_point2[1],
        ]
    }

    /// Interpolate the control points toward another descriptor's,
    /// byte by byte; the linearity flag keeps this descriptor's value.
    pub fn lerp(&self, other: KeyframeInterpolationPoint, amount: u32) -> (r:
        KeyframeInterpolationPoint)
        ensures
            r == spec_kip_lerp(*self, other, amount),
    {
        KeyframeInterpolationPoint {
            control_point1: [
                lerp_u8(self.control_point1[0], other.control_point1[0], amount),
                lerp_u8(self.control_point1[1], other.control_point1[1], amount),
            ],
            control_point2: [
                lerp_u8(self.control_point2[0], other.control_point2[0], amount),
                lerp_u8(self.control_point2[1], other.control_point2[1], amount),
            ],
            is_linear: self.is_linear,
        }
    }

    /// The eased coefficient: a linear descriptor passes `amount` through
    /// unchanged; otherwise the cached curve for the control points is
    /// evaluated at `amount`.
    pub fn curve_value(&self, interval: u32, amount: u32, cache: &mut CurveCache) -> (r: u32)
        requires
            old(cache).wf(),
        ensures
            final(cache).wf(),
            self.is_linear ==> r == amount && *final(cache) == *old(cache),
            !self.is_linear ==> (spec_cache_lookup(
                final(cache).entries@,
                spec_curve_key(self.control_point1, self.control_point2),
            ) matches Some(c) && r == spec_curve_value(c.points@, amount)),
    {
        if self.is_linear {
            amount
        } else {
            let curve = cache.get_or_new(self.control_point1, self.control_point2, interval);
            curve.value(amount)
        }
    }
}

/// A full bone descriptor: one interpolation point for each translation
/// axis and one for the rotation.
#[derive(Clone, Copy, Debug)]
pub struct BoneKeyframeInterpolation {
    /// Descriptors of the X, Y and Z translation components.
    pub translation: [KeyframeInterpolationPoint; 3],
    /// Descriptor of the rotation.
    pub orientation: KeyframeInterpolationPoint,
}

/// The default bone descriptor: all four components linear.
pub open spec fn spec_bki_default() -> BoneKeyframeInterpolation {
    BoneKeyframeInterpolation {
        translation: [spec_kip_default(), spec_kip_default(), spec_kip_default()],
        orientation: spec_kip_default(),
    }
}

/// The bone descriptor whose four components are interpolated toward
/// another's.
pub open spec fn spec_bki_lerp(
    a: BoneKeyframeInterpolation,
    b: BoneKeyframeInterpolation,
    t: u32,
) -> BoneKeyframeInterpolation {
    BoneKeyframeInterpolation {
        translation: [
            spec_kip_lerp(a.translation[0], b.translation[0], t),
            spec_kip_lerp(a.translation[1], b.translation[1], t),
            spec_kip_lerp(a.translation[2], b.translation[2], t),
        ],
        orientation: spec_kip_lerp(a.orientation, b.orientation, t),
    }
}

/// The bone descriptor built from the four raw byte quadruples.
pub open spec fn spec_bki_build(
    tx: [u8; 4],
    ty: [u8; 4],
    tz: [u8; 4],
    rot: [u8; 4],
) -> BoneKeyframeInterpolation {
    BoneKeyframeInterpolation {
        translation: [spec_kip_new(tx), spec_kip_new(ty), spec_kip_new(tz)],
        orientation: spec_kip_new(rot),
    }
}

impl BoneKeyframeInterpolation {
    /// The default bone descriptor with all components linear.
    pub fn zero() -> (r: BoneKeyframeInterpolation)
        ensures
            r == spec_bki_default(),
    {
        BoneKeyframeInterpolation {
            translation: [
                KeyframeInterpolationPoint::zero(),
                KeyframeInterpolationPoint::zero(),
                KeyframeInterpolationPoint::zero(),
            ],
            orientation: KeyframeInterpolationPoint::zero(),
        }
    }

    /// Build a bone descriptor from the four raw byte quadruples.
    pub fn build(
        translation_x: &[u8; 4],
        translation_y: &[u8; 4],
        translation_z: &[u8; 4],
        orientation: &[u8; 4],
    ) -> (r: BoneKeyframeInterpolation)
        ensures
            r == spec_bki_build(*translation_x, *translation_y, *translation_z, *orientation),
    {
        BoneKeyframeInterpolation {
            translation: [
                KeyframeInterpolationPoint::new(translation_x),
                KeyframeInterpolationPoint::new(translation_y),
                KeyframeInterpolationPoint::new(translation_z),
            ],
            orientation: KeyframeInterpolationPoint::new(orientation),
        }
    }

    /// Interpolate all four descriptors toward another's.
    pub fn lerp(&self, other: BoneKeyframeInterpolation, amount: u32) -> (r:
        BoneKeyframeInterpolation)
        ensures
            r == spec_bki_lerp(*self, other, amount),
    {
        BoneKeyframeInterpolation {
            translation: [
                self.translation[0].lerp(other.translation[0], amount),
                self.translation[1].lerp(other.translation[1], amount),
                self.translation[2].lerp(other.translation[2], amount),
            ],
            orientation: self.orientation.lerp(other.orientation, amount),
        }
    }
}

/// Componentwise linear interpolation of a vector with per-component
/// amounts: `a + (b - a) * amount` in each lane.
pub open spec fn spec_lerp_element_wise(a: V3, b: V3, amounts: V3) -> V3 {
    V3 {
        x: add_bits(a.x, mul_bits(sub_bits(b.x, a.x), amounts.x)),
        y: add_bits(a.y, mul_bits(sub_bits(b.y, a.y), amounts.y)),
        z: add_bits(a.z, mul_bits(sub_bits(b.z, a.z), amounts.z)),
    }
}

/// Componentwise linear interpolation of a vector with per-component
/// amounts.
pub fn lerp_element_wise(a: V3, b: V3, amounts: V3) -> (r: V3)
    ensures
        r == spec_lerp_element_wise(a, b, amounts),
{
    V3 {
        x: fadd(a.x, fmul(fsub(b.x, a.x), amounts.x)),
        y: fadd(a.y, fmul(fsub(b.y, a.y), amounts.y)),
        z: fadd(a.z, fmul(fsub(b.z, a.z), amounts.z)),
    }
}

} // verus!
