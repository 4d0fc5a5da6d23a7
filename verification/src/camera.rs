//! The camera track: keyframes of raw look-at, angle, distance and field
//! of view, interpolated on the raw parameters and only then turned into a
//! position and pitch/yaw pair, so the arcsine and arctangent outputs
//! never get interpolated across their discontinuities.

use vstd::prelude::*;

use crate::algebra::{
    from_quat_of, inverse_of, lerp3_of, m4_from_quat, m4_from_translation, m4_inverse, m4_mul,
    matmul_of, normalize_or_zero3_of, q_from_rotation_x, q_from_rotation_y, q_from_rotation_z,
    q_mul, quat_mul_of, rot_x_of, rot_y_of, rot_z_of, spec_m4_from_translation, spec_v3_neg,
    spec_v3_sub, spec_v3_zero, v3_neg, v3_normalize_or_zero, v3_sub, M4, V3,
};
use crate::bezier::CurveCache;
use crate::interpolation::{coefficient, spec_coefficient, spec_kip_new, KeyframeInterpolationPoint};
use crate::keyframe::CameraKeyframe;
use crate::scalar::{
    add_bits, asin_bits, atan2_bits, fadd, fasin, fatan2, flt, fneg, lerp_f32, spec_lerp1,
    spec_lt, spec_neg,
};

verus! {

/// IEEE 754 bit pattern of `30.0_f32`.
pub const CAM_30: u32 = 0x41F0_0000;

/// The derived camera pose for one frame.
#[derive(Clone, Copy, Debug)]
pub struct CameraFrameTransform {
    /// The camera's world position.
    pub position: V3,
    /// Pitch and yaw (the roll is dropped), radians.
    pub rotation: V3,
    /// Field of view.
    pub fov: u32,
    /// Whether the projection is perspective.
    pub is_perspective: bool,
}

/// The raw parameters a camera keyframe interpolates on.
#[derive(Clone, Copy, Debug)]
pub struct CameraRawFrame {
    /// The look-at target.
    pub look_at: V3,
    /// The camera angle, radians.
    pub angle: V3,
    /// The camera distance.
    pub distance: u32,
    /// Field of view.
    pub fov: u32,
    /// Whether the projection is perspective.
    pub is_perspective: bool,
}

/// The default raw frame: origin look-at, zero angle and distance, field
/// of view thirty.
pub open spec fn spec_camera_raw_default() -> CameraRawFrame {
    CameraRawFrame {
        look_at: spec_v3_zero(),
        angle: spec_v3_zero(),
        distance: 0,
        fov: CAM_30,
        is_perspective: true,
    }
}

/// The raw parameters a keyframe yields verbatim.
pub open spec fn spec_raw_of_keyframe(kf: CameraKeyframe) -> CameraRawFrame {
    CameraRawFrame {
        look_at: kf.look_at,
        angle: kf.angle,
        distance: kf.distance,
        fov: kf.fov,
        is_perspective: kf.is_perspective,
    }
}

/// The view matrix with the distance folded into its z translation entry.
pub open spec fn spec_camera_view(look_at: V3, angle: V3, distance: u32) -> M4 {
    let orientation = quat_mul_of(quat_mul_of(rot_z_of(angle.z), rot_x_of(angle.x)), rot_y_of(angle.y));
    let view = matmul_of(from_quat_of(orientation), spec_m4_from_translation(spec_v3_neg(look_at)));
    M4 {
        m: [
            view.m[0], view.m[1], view.m[2], view.m[3],
            view.m[4], view.m[5], view.m[6], view.m[7],
            view.m[8], view.m[9], view.m[10], view.m[11],
            view.m[12], view.m[13], add_bits(view.m[14], spec_neg(distance)), view.m[15],
        ],
    }
}

/// The camera pose derived from raw parameters: the view matrix is
/// inverted for the world position, the frame flips z, and pitch and yaw
/// come from the direction toward the look-at target.
pub open spec fn spec_compute_camera_transform(raw: CameraRawFrame) -> CameraFrameTransform {
    let inv = inverse_of(spec_camera_view(raw.look_at, raw.angle, raw.distance));
    let position_mc = V3 { x: inv.m[12], y: inv.m[13], z: spec_neg(inv.m[14]) };
    let look_at_mc = V3 { x: raw.look_at.x, y: raw.look_at.y, z: spec_neg(raw.look_at.z) };
    let dir = normalize_or_zero3_of(spec_v3_sub(look_at_mc, position_mc));
    CameraFrameTransform {
        position: position_mc,
        rotation: V3 {
            x: asin_bits(spec_neg(dir.y)),
            y: atan2_bits(spec_neg(dir.x), dir.z),
            z: 0,
        },
        fov: raw.fov,
        is_perspective: raw.is_perspective,
    }
}

/// The camera pose derived from raw parameters.
pub fn compute_camera_transform(raw: CameraRawFrame) -> (r: CameraFrameTransform)
    ensures
        r == spec_compute_camera_transform(raw),
{
    let qx = q_from_rotation_x(raw.angle.x);
    let qy = q_from_rotation_y(raw.angle.y);
    let qz = q_from_rotation_z(raw.angle.z);
    let view_orientation = q_mul(q_mul(qz, qx), qy);
    let rot_mat = m4_from_quat(view_orientation);
    let trans_mat = m4_from_translation(v3_neg(raw.look_at));
    let view = m4_mul(&rot_mat, &trans_mat);
    let m = view.m;
    let view2 = M4 {
        m: [
            m[0], m[1], m[2], m[3],
            m[4], m[5], m[6], m[7],
            m[8], m[9], m[10], m[11],
            m[12], m[13], fadd(m[14], fneg(raw.distance)), m[15],
        ],
    };
    let inv = m4_inverse(&view2);
    let position_mc = V3 { x: inv.m[12], y: inv.m[13], z: fneg(inv.m[14]) };
    let look_at_mc = V3 { x: raw.look_at.x, y: raw.look_at.y, z: fneg(raw.look_at.z) };
    let dir = v3_normalize_or_zero(v3_sub(look_at_mc, position_mc));
    let mc_pitch = fasin(fneg(dir.y));
    let mc_yaw = fatan2(fneg(dir.x), dir.z);
    CameraFrameTransform {
        position: position_mc,
        rotation: V3 { x: mc_pitch, y: mc_yaw, z: 0 },
        fov: raw.fov,
        is_perspective: raw.is_perspective,
    }
}

/// Whether the camera keyframes are sorted strictly by frame index.
pub open spec fn spec_camera_sorted(s: Seq<CameraKeyframe>) -> bool {
    forall|i: int, j: int|
        0 <= i < j < s.len() ==> (#[trigger] s[i]).frame_index < (#[trigger] s[j]).frame_index
}

/// Whether some camera keyframe sits exactly at `f`.
pub open spec fn spec_camera_has_key(s: Seq<CameraKeyframe>, f: u32) -> bool {
    exists|i: int| 0 <= i < s.len() && (#[trigger] s[i]).frame_index == f
}

/// Whether some camera keyframe sits at or before `f`.
pub open spec fn spec_camera_has_le(s: Seq<CameraKeyframe>, f: u32) -> bool {
    exists|i: int| 0 <= i < s.len() && (#[trigger] s[i]).frame_index <= f
}

/// Whether some camera keyframe sits after `f`.
pub open spec fn spec_camera_has_gt(s: Seq<CameraKeyframe>, f: u32) -> bool {
    exists|i: int| 0 <= i < s.len() && (#[trigger] s[i]).frame_index > f
}

/// Whether `i` indexes the last camera keyframe at or before `f`.
pub open spec fn spec_camera_prev_idx(s: Seq<CameraKeyframe>, f: u32, i: int) -> bool {
    &&& 0 <= i < s.len()
    &&& s[i].frame_index <= f
    &&& (i + 1 == s.len() || s[i + 1].frame_index > f)
}

/// Whether `i` indexes the first camera keyframe after `f`.
pub open spec fn spec_camera_next_idx(s: Seq<CameraKeyframe>, f: u32, i: int) -> bool {
    &&& 0 <= i < s.len()
    &&& s[i].frame_index > f
    &&& (i == 0 || s[i - 1].frame_index <= f)
}

/// The raw interpolation of a bracketing pair with the six eased amounts:
/// the three look-at lanes ease independently, the three angle lanes share
/// one amount, and distance and field of view take their own.
pub open spec fn spec_camera_interp_result(
    prev: CameraKeyframe,
    next: CameraKeyframe,
    ax: u32,
    ay: u32,
    az: u32,
    a_angle: u32,
    a_distance: u32,
    a_fov: u32,
) -> CameraRawFrame {
    CameraRawFrame {
        look_at: V3 {
            x: spec_lerp1(prev.look_at.x, next.look_at.x, ax),
            y: spec_lerp1(prev.look_at.y, next.look_at.y, ay),
            z: spec_lerp1(prev.look_at.z, next.look_at.z, az),
        },
        angle: V3 {
            x: spec_lerp1(prev.angle.x, next.angle.x, a_angle),
            y: spec_lerp1(prev.angle.y, next.angle.y, a_angle),
            z: spec_lerp1(prev.angle.z, next.angle.z, a_angle),
        },
        distance: spec_lerp1(prev.distance, next.distance, a_distance),
        fov: spec_lerp1(prev.fov, next.fov, a_fov),
        is_perspective: prev.is_perspective,
    }
}

/// What the raw seek yields at `f`: the keyframe itself on a hit, a single
/// neighbour verbatim at either end, the eased raw interpolation of the
/// bracketing pair otherwise (each amount pinned to the raw coefficient
/// when its descriptor is linear), and the default on an empty track.
pub open spec fn spec_camera_raw_post(s: Seq<CameraKeyframe>, f: u32, r: CameraRawFrame) -> bool {
    if spec_camera_has_key(s, f) {
        exists|i: int|
            0 <= i < s.len() && (#[trigger] s[i]).frame_index == f && r == spec_raw_of_keyframe(
                s[i],
            )
    } else if spec_camera_has_le(s, f) && spec_camera_has_gt(s, f) {
        exists|pi: int, ni: int|
            #![trigger spec_camera_prev_idx(s, f, pi), spec_camera_next_idx(s, f, ni)]
            {
                &&& spec_camera_prev_idx(s, f, pi)
                &&& spec_camera_next_idx(s, f, ni)
                &&& {
                    let coef = spec_coefficient(s[pi].frame_index, s[ni].frame_index, f);
                    exists|ax: u32, ay: u32, az: u32, a_angle: u32, a_distance: u32, a_fov: u32|
                        {
                            &&& (spec_kip_new(s[ni].interpolation.lookat_x).is_linear ==> ax
                                == coef)
                            &&& (spec_kip_new(s[ni].interpolation.lookat_y).is_linear ==> ay
                                == coef)
                            &&& (spec_kip_new(s[ni].interpolation.lookat_z).is_linear ==> az
                                == coef)
                            &&& (spec_kip_new(s[ni].interpolation.angle).is_linear ==> a_angle
                                == coef)
                            &&& (spec_kip_new(s[ni].interpolation.distance).is_linear
                                ==> a_distance == coef)
                            &&& (spec_kip_new(s[ni].interpolation.fov).is_linear ==> a_fov == coef)
                            &&& r == #[trigger] spec_camera_interp_result(
                                s[pi],
                                s[ni],
                                ax,
                                ay,
                                az,
                                a_angle,
                                a_distance,
                                a_fov,
                            )
                        }
                }
            }
    } else if spec_camera_has_le(s, f) {
        exists|pi: int|
            #[trigger] spec_camera_prev_idx(s, f, pi) && r == spec_raw_of_keyframe(s[pi])
    } else if spec_camera_has_gt(s, f) {
        exists|ni: int|
            #[trigger] spec_camera_next_idx(s, f, ni) && r == spec_raw_of_keyframe(s[ni])
    } else {
        r == spec_camera_raw_default()
    }
}

/// The camera keyframes, sorted strictly by frame index.
#[derive(Clone, Debug)]
pub struct CameraMotionTrack {
    /// The keyframes, sorted strictly by frame index.
    pub keyframes: Vec<CameraKeyframe>,
}

impl CameraMotionTrack {
    /// The track's keyframes are sorted strictly by frame index.
    pub open spec fn wf(self) -> bool {
        spec_camera_sorted(self.keyframes@)
    }

    /// An empty track.
    pub fn new() -> (r: CameraMotionTrack)
        ensures
            r.wf(),
            r.keyframes@.len() == 0,
    {
        CameraMotionTrack { keyframes: Vec::new() }
    }

    /// Number of keyframes.
    pub fn len(&self) -> (r: usize)
        ensures
            r == self.keyframes@.len(),
    {
        self.keyframes.len()
    }

    /// Whether the track has no keyframes.
    pub fn is_empty(&self) -> (r: bool)
        ensures
            r == (self.keyframes@.len() == 0),
    {
        self.keyframes.len() == 0
    }

    /// The largest frame index, or zero on an empty track.
    pub fn max_frame_index(&self) -> (r: u32)
        requires
            self.wf(),
        ensures
            self.keyframes@.len() == 0 ==> r == 0,
            self.keyframes@.len() > 0 ==> r == self.keyframes@.last().frame_index,
    {
        if self.keyframes.len() == 0 {
            0
        } else {
            self.keyframes[self.keyframes.len() - 1].frame_index
        }
    }

    /// Store a keyframe, replacing and returning the one already at its
    /// frame, keeping the order intact.
    pub fn insert_keyframe(&mut self, keyframe: CameraKeyframe) -> (r: Option<CameraKeyframe>)
        requires
            old(self).wf(),
        ensures
            final(self).wf(),
            match r {
                Some(replaced) => exists|i: int|
                    0 <= i < old(self).keyframes@.len() && (#[trigger] old(self).keyframes@[i])
                        .frame_index == keyframe.frame_index && replaced == old(self).keyframes@[i]
                        && final(self).keyframes@ == old(self).keyframes@.update(i, keyframe),
                None => {
                    &&& !spec_camera_has_key(old(self).keyframes@, keyframe.frame_index)
                    &&& exists|i: int|
                        0 <= i <= old(self).keyframes@.len() && final(self).keyframes@ == old(
                            self,
                        ).keyframes@.insert(i, keyframe)
                },
            },
    {
        let ghost s = self.keyframes@;
        let mut idx: usize = 0;
        while idx < self.keyframes.len() && self.keyframes[idx].frame_index < keyframe.frame_index
            invariant
                self == old(self),
                idx <= s.len(),
                s == self.keyframes@,
                forall|j: int| 0 <= j < idx ==> (#[trigger] s[j]).frame_index < keyframe.frame_index,
            decreases s.len() - idx,
        {
            idx = idx + 1;
        }
        if idx < self.keyframes.len() && self.keyframes[idx].frame_index == keyframe.frame_index {
            let replaced = self.keyframes.remove(idx);
            self.keyframes.insert(idx, keyframe);
            proof {
                let t = self.keyframes@;
                assert(t =~= s.update(idx as int, keyframe));
                assert forall|i: int, j: int|
                    0 <= i < j < t.len() implies (#[trigger] t[i]).frame_index < (
                #[trigger] t[j]).frame_index by {
                    assert(s[i].frame_index < s[j].frame_index);
                }
            }
            Some(replaced)
        } else {
            proof {
                assert forall|i: int|
                    0 <= i < s.len() implies (#[trigger] s[i]).frame_index
                    != keyframe.frame_index by {
                    if i < idx {
                    } else if idx < s.len() {
                        if i > idx {
                            assert(s[idx as int].frame_index < s[i].frame_index);
                        }
                    }
                }
            }
            self.keyframes.insert(idx, keyframe);
            proof {
                let t = self.keyframes@;
                assert forall|i: int, j: int|
                    0 <= i < j < t.len() implies (#[trigger] t[i]).frame_index < (
                #[trigger] t[j]).frame_index by {
                    if i < idx && j < idx {
                    } else if i < idx && j == idx {
                        assert(t[i] == s[i]);
                    } else if i == idx && j > idx {
                        assert(t[j] == s[j - 1]);
                        assert(s[j - 1].frame_index >= keyframe.frame_index);
                        assert(s[j - 1].frame_index != keyframe.frame_index);
                    } else if i < idx && j > idx {
                        assert(t[i] == s[i] && t[j] == s[j - 1]);
                        assert(idx <= j - 1);
                        if idx < j - 1 {
                            assert(s[idx as int].frame_index < s[j - 1].frame_index);
                        }
                        assert(s[i].frame_index < keyframe.frame_index);
                        assert(keyframe.frame_index <= s[j - 1].frame_index);
                    } else {
                        assert(t[i] == s[i - 1] && t[j] == s[j - 1]);
                    }
                }
            }
            None
        }
    }

    /// Indices of the last keyframe at or before `f` and the first after.
    fn search_closest_indices(&self, frame_index: u32) -> (r: (Option<usize>, Option<usize>))
        requires
            self.wf(),
        ensures
            match r.0 {
                Some(pi) => spec_camera_prev_idx(self.keyframes@, frame_index, pi as int),
                None => !spec_camera_has_le(self.keyframes@, frame_index),
            },
            match r.1 {
                Some(ni) => spec_camera_next_idx(self.keyframes@, frame_index, ni as int),
                None => !spec_camera_has_gt(self.keyframes@, frame_index),
            },
    {
        let ghost s = self.keyframes@;
        let mut idx: usize = 0;
        while idx < self.keyframes.len() && self.keyframes[idx].frame_index <= frame_index
            invariant
                idx <= s.len(),
                s == self.keyframes@,
                self.wf(),
                forall|j: int| 0 <= j < idx ==> (#[trigger] s[j]).frame_index <= frame_index,
            decreases s.len() - idx,
        {
            idx = idx + 1;
        }
        let prev: Option<usize> = if idx > 0 {
            Some(idx - 1)
        } else {
            proof {
                assert forall|i: int|
                    0 <= i < s.len() implies !((#[trigger] s[i]).frame_index <= frame_index) by {
                    if i > 0 {
                        assert(s[0].frame_index < s[i].frame_index);
                    }
                }
            }
            None
        };
        let next: Option<usize> = if idx < self.keyframes.len() {
            Some(idx)
        } else {
            None
        };
        (prev, next)
    }

    /// The raw parameters at a whole frame.
    fn seek_raw(&self, frame_index: u32, cache: &mut CurveCache) -> (r: CameraRawFrame)
        requires
            self.wf(),
            old(cache).wf(),
        ensures
            final(cache).wf(),
            spec_camera_raw_post(self.keyframes@, frame_index, r),
    {
        let ghost s = self.keyframes@;
        let (pi, ni) = self.search_closest_indices(frame_index);
        if let Some(p) = pi {
            if self.keyframes[p].frame_index == frame_index {
                let kf = self.keyframes[p];
                let r = CameraRawFrame {
                    look_at: kf.look_at,
                    angle: kf.angle,
                    distance: kf.distance,
                    fov: kf.fov,
                    is_perspective: kf.is_perspective,
                };
                proof {
                    assert(spec_camera_has_key(s, frame_index));
                }
                return r;
            }
        }
        proof {
            assert forall|i: int|
                0 <= i < s.len() implies (#[trigger] s[i]).frame_index != frame_index by {
                if s[i].frame_index == frame_index {
                    match pi {
                        Some(p) => {
                            if i < p {
                                assert(s[i].frame_index < s[p as int].frame_index);
                            } else if i > p {
                                assert(s[p as int + 1].frame_index > frame_index);
                                if i > p + 1 {
                                    assert(s[p as int + 1].frame_index < s[i].frame_index);
                                }
                            }
                        },
                        None => {
                            assert(!spec_camera_has_le(s, frame_index));
                        },
                    }
                }
            }
        }
        match (pi, ni) {
            (Some(p), Some(n)) => {
                let prev = self.keyframes[p];
                let next = self.keyframes[n];
                let interval = next.frame_index - prev.frame_index;
                let coef = coefficient(prev.frame_index, next.frame_index, frame_index);
                let ip_x = KeyframeInterpolationPoint::new(&next.interpolation.lookat_x);
                let ip_y = KeyframeInterpolationPoint::new(&next.interpolation.lookat_y);
                let ip_z = KeyframeInterpolationPoint::new(&next.interpolation.lookat_z);
                let ip_angle = KeyframeInterpolationPoint::new(&next.interpolation.angle);
                let ip_distance = KeyframeInterpolationPoint::new(&next.interpolation.distance);
                let ip_fov = KeyframeInterpolationPoint::new(&next.interpolation.fov);
                let ax = ip_x.curve_value(interval, coef, cache);
                let ay = ip_y.curve_value(interval, coef, cache);
                let az = ip_z.curve_value(interval, coef, cache);
                let a_angle = ip_angle.curve_value(interval, coef, cache);
                let a_distance = ip_distance.curve_value(interval, coef, cache);
                let a_fov = ip_fov.curve_value(interval, coef, cache);
                let r = CameraRawFrame {
                    look_at: V3 {
                        x: lerp_f32(prev.look_at.x, next.look_at.x, ax),
                        y: lerp_f32(prev.look_at.y, next.look_at.y, ay),
                        z: lerp_f32(prev.look_at.z, next.look_at.z, az),
                    },
                    angle: V3 {
                        x: lerp_f32(prev.angle.x, next.angle.x, a_angle),
                        y: lerp_f32(prev.angle.y, next.angle.y, a_angle),
                        z: lerp_f32(prev.angle.z, next.angle.z, a_angle),
                    },
                    distance: lerp_f32(prev.distance, next.distance, a_distance),
                    fov: lerp_f32(prev.fov, next.fov, a_fov),
                    is_perspective: prev.is_perspective,
                };
                proof {
                    assert(r == spec_camera_interp_result(
                        s[p as int],
                        s[n as int],
                        ax,
                        ay,
                        az,
                        a_angle,
                        a_distance,
                        a_fov,
                    ));
                }
                r
            },
            (Some(p), None) => {
                let kf = self.keyframes[p];
                CameraRawFrame {
                    look_at: kf.look_at,
                    angle: kf.angle,
                    distance: kf.distance,
                    fov: kf.fov,
                    is_perspective: kf.is_perspective,
                }
            },
            (None, Some(n)) => {
                let kf = self.keyframes[n];
                CameraRawFrame {
                    look_at: kf.look_at,
                    angle: kf.angle,
                    distance: kf.distance,
                    fov: kf.fov,
                    is_perspective: kf.is_perspective,
                }
            },
            (None, None) => CameraRawFrame {
                look_at: crate::algebra::v3_zero(),
                angle: crate::algebra::v3_zero(),
                distance: 0,
                fov: CAM_30,
                is_perspective: true,
            },
        }
    }

    /// The camera pose at a whole frame.
    pub fn seek(&self, frame_index: u32, cache: &mut CurveCache) -> (r: CameraFrameTransform)
        requires
            self.wf(),
            old(cache).wf(),
        ensures
            final(cache).wf(),
            exists|raw: CameraRawFrame|
                #[trigger] spec_camera_raw_post(self.keyframes@, frame_index, raw) && r
                    == spec_compute_camera_transform(raw),
    {
        let raw = self.seek_raw(frame_index, cache);
        compute_camera_transform(raw)
    }

    /// The camera pose between whole frames: the raw parameters at `f` and
    /// `f + 1` interpolated linearly by the sub-frame amount before the
    /// pose is derived once.
    pub fn seek_precisely(&self, frame_index: u32, amount: u32, cache: &mut CurveCache) -> (r:
        CameraFrameTransform)
        requires
            self.wf(),
            old(cache).wf(),
        ensures
            final(cache).wf(),
            !spec_lt(0, amount) ==> exists|raw: CameraRawFrame|
                #[trigger] spec_camera_raw_post(self.keyframes@, frame_index, raw) && r
                    == spec_compute_camera_transform(raw),
            spec_lt(0, amount) ==> exists|raw0: CameraRawFrame, raw1: CameraRawFrame|
                #![trigger spec_camera_raw_post(self.keyframes@, frame_index, raw0), spec_camera_raw_post(self.keyframes@, crate::track::add_sat(frame_index, 1), raw1)]
                {
                    &&& spec_camera_raw_post(self.keyframes@, frame_index, raw0)
                    &&& spec_camera_raw_post(
                        self.keyframes@,
                        crate::track::add_sat(frame_index, 1),
                        raw1,
                    )
                    &&& r == spec_compute_camera_transform(spec_camera_raw_blend(raw0, raw1, amount))
                },
    {
        let f0 = self.seek_raw(frame_index, cache);
        if flt(0, amount) {
            let next_frame = if frame_index <= u32::MAX - 1 {
                frame_index + 1
            } else {
                u32::MAX
            };
            let f1 = self.seek_raw(next_frame, cache);
            let raw = CameraRawFrame {
                look_at: crate::algebra::v3_lerp(f0.look_at, f1.look_at, amount),
                angle: V3 {
                    x: lerp_f32(f0.angle.x, f1.angle.x, amount),
                    y: lerp_f32(f0.angle.y, f1.angle.y, amount),
                    z: lerp_f32(f0.angle.z, f1.angle.z, amount),
                },
                distance: lerp_f32(f0.distance, f1.distance, amount),
                fov: lerp_f32(f0.fov, f1.fov, amount),
                is_perspective: f0.is_perspective,
            };
            proof {
                assert(next_frame == crate::track::add_sat(frame_index, 1));
                assert(raw == spec_camera_raw_blend(f0, f1, amount));
                assert(spec_camera_raw_post(self.keyframes@, frame_index, f0));
                assert(spec_camera_raw_post(
                    self.keyframes@,
                    crate::track::add_sat(frame_index, 1),
                    f1,
                ));
            }
            compute_camera_transform(raw)
        } else {
            compute_camera_transform(f0)
        }
    }
}

/// Two raw frames blended linearly: the look-at through the vector
/// interpolation, the remaining scalars lane by lane, the projection flag
/// from the first.
pub open spec fn spec_camera_raw_blend(f0: CameraRawFrame, f1: CameraRawFrame, amount: u32) -> (
    CameraRawFrame
) {
    CameraRawFrame {
        look_at: lerp3_of(f0.look_at, f1.look_at, amount),
        angle: V3 {
            x: spec_lerp1(f0.angle.x, f1.angle.x, amount),
            y: spec_lerp1(f0.angle.y, f1.angle.y, amount),
            z: spec_lerp1(f0.angle.z, f1.angle.z, amount),
        },
        distance: spec_lerp1(f0.distance, f1.distance, amount),
        fov: spec_lerp1(f0.fov, f1.fov, amount),
        is_perspective: f0.is_perspective,
    }
}

} // verus!
