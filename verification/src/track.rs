//! Motion tracks: ordered keyframe stores with bracketing search, seek and
//! interpolated evaluation.
//!
//! A track holds its keyframes in a vector sorted strictly by frame index.
//! `seek` answers: the keyframe itself on an exact hit; the single
//! neighbour verbatim at either end; otherwise the interpolation of the two
//! bracketing keyframes, with the physics hand-over edge emitting a
//! crossfade coefficient instead.

use vstd::prelude::*;

use crate::algebra::{lerp3_of, slerp_of, spec_q4_identity, spec_v3_zero, q_slerp, v3_lerp, Q4, V3};
use crate::bezier::CurveCache;
use crate::interpolation::{
    coefficient, lerp_element_wise, spec_bki_build, spec_bki_default, spec_bki_lerp,
    spec_coefficient, spec_kip_new, spec_lerp_element_wise, BoneKeyframeInterpolation,
    KeyframeInterpolationPoint,
};
use crate::keyframe::{BoneKeyframe, IkKeyframe, MorphKeyframe};
use crate::scalar::{flt, fmul, fsub, lerp_f32, mul_bits, spec_lerp1, spec_lt, sub_bits};

verus! {

/// IEEE 754 bit pattern of `1.0_f32`.
pub const T_ONE: u32 = 0x3F80_0000;

/// The pose a bone track yields for one frame.
#[derive(Clone, Copy, Debug)]
pub struct BoneFrameTransform {
    /// Translation.
    pub translation: V3,
    /// Orientation.
    pub orientation: Q4,
    /// The next keyframe's interpolation descriptors.
    pub interpolation: BoneKeyframeInterpolation,
    /// Crossfade coefficient emitted on a physics hand-over edge.
    pub local_transform_mix: Option<u32>,
    /// Whether physics is enabled across this frame.
    pub enable_physics: bool,
    /// Whether physics is being handed back to animation at this frame.
    pub disable_physics: bool,
}

/// The identity frame: zero translation, identity orientation, linear
/// descriptors, no crossfade, physics off.
pub open spec fn spec_bone_frame_default() -> BoneFrameTransform {
    BoneFrameTransform {
        translation: spec_v3_zero(),
        orientation: spec_q4_identity(),
        interpolation: spec_bki_default(),
        local_transform_mix: None,
        enable_physics: false,
        disable_physics: false,
    }
}

impl Default for BoneFrameTransform {
    /// The identity frame.
    fn default() -> (r: BoneFrameTransform)
        ensures
            r == spec_bone_frame_default(),
    {
        BoneFrameTransform {
            translation: crate::algebra::v3_zero(),
            orientation: crate::algebra::q4_identity(),
            interpolation: BoneKeyframeInterpolation::zero(),
            local_transform_mix: None,
            enable_physics: false,
            disable_physics: false,
        }
    }
}

impl BoneFrameTransform {
    /// The track translation, crossfaded from the caller's local value when
    /// a physics hand-over is in progress.
    pub fn mixed_translation(&self, local_user_translation: V3) -> (r: V3)
        ensures
            r == match self.local_transform_mix {
                Some(coef) => lerp3_of(local_user_translation, self.translation, coef),
                None => self.translation,
            },
    {
        match self.local_transform_mix {
            Some(coef) => v3_lerp(local_user_translation, self.translation, coef),
            None => self.translation,
        }
    }

    /// The track orientation, crossfaded from the caller's local value when
    /// a physics hand-over is in progress.
    pub fn mixed_orientation(&self, local_user_orientation: Q4) -> (r: Q4)
        ensures
            r == match self.local_transform_mix {
                Some(coef) => slerp_of(local_user_orientation, self.orientation, coef),
                None => self.orientation,
            },
    {
        match self.local_transform_mix {
            Some(coef) => q_slerp(local_user_orientation, self.orientation, coef),
            None => self.orientation,
        }
    }
}

/// Whether the bone keyframes are sorted strictly by frame index.
pub open spec fn spec_bone_sorted(s: Seq<BoneKeyframe>) -> bool {
    forall|i: int, j: int|
        0 <= i < j < s.len() ==> (#[trigger] s[i]).frame_index < (#[trigger] s[j]).frame_index
}

/// Whether some keyframe sits exactly at `f`.
pub open spec fn spec_bone_has_key(s: Seq<BoneKeyframe>, f: u32) -> bool {
    exists|i: int| 0 <= i < s.len() && (#[trigger] s[i]).frame_index == f
}

/// Whether some keyframe sits at or before `f`.
pub open spec fn spec_bone_has_le(s: Seq<BoneKeyframe>, f: u32) -> bool {
    exists|i: int| 0 <= i < s.len() && (#[trigger] s[i]).frame_index <= f
}

/// Whether some keyframe sits after `f`.
pub open spec fn spec_bone_has_gt(s: Seq<BoneKeyframe>, f: u32) -> bool {
    exists|i: int| 0 <= i < s.len() && (#[trigger] s[i]).frame_index > f
}

/// Whether `i` indexes the last keyframe at or before `f`.
pub open spec fn spec_bone_prev_idx(s: Seq<BoneKeyframe>, f: u32, i: int) -> bool {
    &&& 0 <= i < s.len()
    &&& s[i].frame_index <= f
    &&& (i + 1 == s.len() || s[i + 1].frame_index > f)
}

/// Whether `i` indexes the first keyframe after `f`.
pub open spec fn spec_bone_next_idx(s: Seq<BoneKeyframe>, f: u32, i: int) -> bool {
    &&& 0 <= i < s.len()
    &&& s[i].frame_index > f
    &&& (i == 0 || s[i - 1].frame_index <= f)
}

/// The frame transform a keyframe yields verbatim.
pub open spec fn spec_frame_of_keyframe(kf: BoneKeyframe) -> BoneFrameTransform {
    BoneFrameTransform {
        translation: kf.translation,
        orientation: kf.orientation,
        interpolation: spec_bki_build(
            kf.interpolation_x,
            kf.interpolation_y,
            kf.interpolation_z,
            kf.interpolation_r,
        ),
        local_transform_mix: None,
        enable_physics: kf.is_physics_simulation_enabled,
        disable_physics: false,
    }
}

/// The interpolation of a bracketing pair with the four eased amounts.
pub open spec fn spec_bone_interp_result(
    prev: BoneKeyframe,
    next: BoneKeyframe,
    ax: u32,
    ay: u32,
    az: u32,
    ar: u32,
) -> BoneFrameTransform {
    BoneFrameTransform {
        translation: spec_lerp_element_wise(
            prev.translation,
            next.translation,
            V3 { x: ax, y: ay, z: az },
        ),
        orientation: slerp_of(prev.orientation, next.orientation, ar),
        interpolation: spec_bki_build(
            next.interpolation_x,
            next.interpolation_y,
            next.interpolation_z,
            next.interpolation_r,
        ),
        local_transform_mix: None,
        enable_physics: prev.is_physics_simulation_enabled
            && next.is_physics_simulation_enabled,
        disable_physics: false,
    }
}

/// What `seek` yields between a bracketing pair: on a physics hand-over
/// edge (the keyframes' physics flags disagree), the next pose verbatim
/// with the raw coefficient as crossfade, physics turning off or on with
/// the next keyframe; when the flags agree, the eased interpolation, where
/// each amount equals the raw coefficient whenever its descriptor is
/// linear.
pub open spec fn spec_bone_interp_post(
    prev: BoneKeyframe,
    next: BoneKeyframe,
    f: u32,
    r: BoneFrameTransform,
) -> bool {
    let coef = spec_coefficient(prev.frame_index, next.frame_index, f);
    if prev.is_physics_simulation_enabled && !next.is_physics_simulation_enabled {
        r == BoneFrameTransform {
            translation: next.translation,
            orientation: next.orientation,
            interpolation: spec_bki_build(
                next.interpolation_x,
                next.interpolation_y,
                next.interpolation_z,
                next.interpolation_r,
            ),
            local_transform_mix: Some(coef),
            enable_physics: false,
            disable_physics: true,
        }
    } else if !prev.is_physics_simulation_enabled && next.is_physics_simulation_enabled {
        r == BoneFrameTransform {
            translation: next.translation,
            orientation: next.orientation,
            interpolation: spec_bki_build(
                next.interpolation_x,
                next.interpolation_y,
                next.interpolation_z,
                next.interpolation_r,
            ),
            local_transform_mix: Some(coef),
            enable_physics: true,
            disable_physics: false,
        }
    } else {
        exists|ax: u32, ay: u32, az: u32, ar: u32|
            {
                &&& (spec_kip_new(next.interpolation_x).is_linear ==> ax == coef)
                &&& (spec_kip_new(next.interpolation_y).is_linear ==> ay == coef)
                &&& (spec_kip_new(next.interpolation_z).is_linear ==> az == coef)
                &&& (spec_kip_new(next.interpolation_r).is_linear ==> ar == coef)
                &&& r == #[trigger] spec_bone_interp_result(prev, next, ax, ay, az, ar)
            }
    }
}

/// What `seek` yields at frame `f` over the sorted keyframes `s`.
pub open spec fn spec_bone_seek_post(s: Seq<BoneKeyframe>, f: u32, r: BoneFrameTransform) -> bool {
    if spec_bone_has_key(s, f) {
        exists|i: int|
            0 <= i < s.len() && (#[trigger] s[i]).frame_index == f && r == spec_frame_of_keyframe(
                s[i],
            )
    } else if spec_bone_has_le(s, f) && spec_bone_has_gt(s, f) {
        exists|pi: int, ni: int|
            #![trigger spec_bone_prev_idx(s, f, pi), spec_bone_next_idx(s, f, ni)]
            {
                &&& spec_bone_prev_idx(s, f, pi)
                &&& spec_bone_next_idx(s, f, ni)
                &&& spec_bone_interp_post(s[pi], s[ni], f, r)
            }
    } else if spec_bone_has_le(s, f) {
        exists|pi: int| #[trigger] spec_bone_prev_idx(s, f, pi) && r == spec_frame_of_keyframe(s[pi])
    } else if spec_bone_has_gt(s, f) {
        exists|ni: int| #[trigger] spec_bone_next_idx(s, f, ni) && r == spec_frame_of_keyframe(s[ni])
    } else {
        r == spec_bone_frame_default()
    }
}

/// What `seek_precisely` yields: the whole-frame poses at `f` and `f + 1`
/// blended linearly by the sub-frame amount; nothing more when the amount
/// is not positive.
pub open spec fn spec_bone_seek_precisely_post(
    s: Seq<BoneKeyframe>,
    f: u32,
    amount: u32,
    r: BoneFrameTransform,
) -> bool {
    if spec_lt(0, amount) {
        exists|f0: BoneFrameTransform, f1: BoneFrameTransform|
            #![trigger spec_bone_seek_post(s, f, f0), spec_bone_seek_post(s, add_sat(f, 1), f1)]
            {
                &&& spec_bone_seek_post(s, f, f0)
                &&& spec_bone_seek_post(s, add_sat(f, 1), f1)
                &&& r == spec_bone_blend(f0, f1, amount)
            }
    } else {
        spec_bone_seek_post(s, f, r)
    }
}

/// Saturating increment on frame indices.
pub open spec fn add_sat(f: u32, d: u32) -> u32 {
    if f + d <= u32::MAX {
        (f + d) as u32
    } else {
        u32::MAX
    }
}

/// The linear blend of two whole-frame poses by the sub-frame amount.
pub open spec fn spec_bone_blend(
    f0: BoneFrameTransform,
    f1: BoneFrameTransform,
    amount: u32,
) -> BoneFrameTransform {
    BoneFrameTransform {
        translation: lerp3_of(f0.translation, f1.translation, amount),
        orientation: slerp_of(f0.orientation, f1.orientation, amount),
        interpolation: spec_bki_lerp(f0.interpolation, f1.interpolation, amount),
        local_transform_mix: match (f0.local_transform_mix, f1.local_transform_mix) {
            (Some(a0), Some(a1)) => Some(spec_lerp1(a0, a1, amount)),
            (None, Some(a1)) => Some(mul_bits(amount, a1)),
            (Some(a0), None) => Some(mul_bits(sub_bits(T_ONE, amount), a0)),
            (None, None) => None,
        },
        enable_physics: f0.enable_physics && f1.enable_physics,
        disable_physics: f0.disable_physics || f1.disable_physics,
    }
}

/// A bone's keyframes, sorted strictly by frame index.
#[derive(Clone, Debug)]
pub struct BoneMotionTrack {
    /// The keyframes, sorted strictly by frame index.
    pub keyframes: Vec<BoneKeyframe>,
}

impl BoneMotionTrack {
    /// The track's keyframes are sorted strictly by frame index.
    pub open spec fn wf(self) -> bool {
        spec_bone_sorted(self.keyframes@)
    }

    /// An empty track.
    pub fn new() -> (r: BoneMotionTrack)
        ensures
            r.wf(),
            r.keyframes@.len() == 0,
    {
        BoneMotionTrack { keyframes: Vec::new() }
    }

    /// Number of keyframes.
    pub fn len(&self) -> (r: usize)
        ensures
            r == self.keyframes@.len(),
    {
        self.keyframes.len()
    }

    /// Whether the track has no keyframes.
    pub fn is_empty(&self) -> (r: bool)
        ensures
            r == (self.keyframes@.len() == 0),
    {
        self.keyframes.len() == 0
    }

    /// The largest frame index, or zero on an empty track.
    pub fn max_frame_index(&self) -> (r: u32)
        requires
            self.wf(),
        ensures
            self.keyframes@.len() == 0 ==> r == 0,
            self.keyframes@.len() > 0 ==> r == self.keyframes@.last().frame_index,
    {
        if self.keyframes.len() == 0 {
            0
        } else {
            self.keyframes[self.keyframes.len() - 1].frame_index
        }
    }

    /// Store a keyframe, replacing and returning the one already at its
    /// frame, keeping the order intact.
    pub fn insert_keyframe(&mut self, keyframe: BoneKeyframe) -> (r: Option<BoneKeyframe>)
        requires
            old(self).wf(),
        ensures
            final(self).wf(),
            match r {
                Some(replaced) => exists|i: int|
                    0 <= i < old(self).keyframes@.len() && (#[trigger] old(self).keyframes@[i])
                        .frame_index == keyframe.frame_index && replaced == old(self).keyframes@[i]
                        && final(self).keyframes@ == old(self).keyframes@.update(i, keyframe),
                None => {
                    &&& !spec_bone_has_key(old(self).keyframes@, keyframe.frame_index)
                    &&& exists|i: int|
                        0 <= i <= old(self).keyframes@.len() && final(self).keyframes@ == old(
                            self,
                        ).keyframes@.insert(i, keyframe)
                },
            },
    {
        let ghost s = self.keyframes@;
        let mut idx: usize = 0;
        while idx < self.keyframes.len() && self.keyframes[idx].frame_index < keyframe.frame_index
            invariant
                self == old(self),
                idx <= s.len(),
                s == self.keyframes@,
                forall|j: int| 0 <= j < idx ==> (#[trigger] s[j]).frame_index < keyframe.frame_index,
            decreases s.len() - idx,
        {
            idx = idx + 1;
        }
        if idx < self.keyframes.len() && self.keyframes[idx].frame_index == keyframe.frame_index {
            let replaced = self.keyframes.remove(idx);
            self.keyframes.insert(idx, keyframe);
            proof {
                let t = self.keyframes@;
                assert(t =~= s.update(idx as int, keyframe));
                assert forall|i: int, j: int|
                    0 <= i < j < t.len() implies (#[trigger] t[i]).frame_index < (
                #[trigger] t[j]).frame_index by {
                    assert(s[i].frame_index < s[j].frame_index);
                }
            }
            Some(replaced)
        } else {
            proof {
                assert forall|i: int|
                    0 <= i < s.len() implies (#[trigger] s[i]).frame_index
                    != keyframe.frame_index by {
                    if i < idx {
                    } else if idx < s.len() {
                        if i > idx {
                            assert(s[idx as int].frame_index < s[i].frame_index);
                        }
                    }
                }
            }
            self.keyframes.insert(idx, keyframe);
            proof {
                let t = self.keyframes@;
                assert forall|i: int, j: int|
                    0 <= i < j < t.len() implies (#[trigger] t[i]).frame_index < (
                #[trigger] t[j]).frame_index by {
                    if i < idx && j < idx {
                    } else if i < idx && j == idx {
                        assert(t[i] == s[i]);
                    } else if i == idx && j > idx {
                        assert(t[j] == s[j - 1]);
                        assert(s[j - 1].frame_index >= keyframe.frame_index);
                        assert(s[j - 1].frame_index != keyframe.frame_index);
                    } else if i < idx && j > idx {
                        assert(t[i] == s[i] && t[j] == s[j - 1]);
                        assert(idx <= j - 1);
                        if idx < j - 1 {
                            assert(s[idx as int].frame_index < s[j - 1].frame_index);
                        }
                        assert(s[i].frame_index < keyframe.frame_index);
                        assert(keyframe.frame_index <= s[j - 1].frame_index);
                    } else {
                        assert(t[i] == s[i - 1] && t[j] == s[j - 1]);
                    }
                }
            }
            None
        }
    }

    /// Remove and return the keyframe at `frame_index`, if present.
    pub fn remove_keyframe(&mut self, frame_index: u32) -> (r: Option<BoneKeyframe>)
        requires
            old(self).wf(),
        ensures
            final(self).wf(),
            match r {
                Some(removed) => exists|i: int|
                    0 <= i < old(self).keyframes@.len() && (#[trigger] old(self).keyframes@[i])
                        .frame_index == frame_index && removed == old(self).keyframes@[i]
                        && final(self).keyframes@ == old(self).keyframes@.remove(i),
                None => {
                    &&& !spec_bone_has_key(old(self).keyframes@, frame_index)
                    &&& *final(self) == *old(self)
                },
            },
    {
        let ghost s = self.keyframes@;
        let mut idx: usize = 0;
        while idx < self.keyframes.len() && self.keyframes[idx].frame_index < frame_index
            invariant
                self == old(self),
                idx <= s.len(),
                s == self.keyframes@,
                forall|j: int| 0 <= j < idx ==> (#[trigger] s[j]).frame_index < frame_index,
            decreases s.len() - idx,
        {
            idx = idx + 1;
        }
        if idx < self.keyframes.len() && self.keyframes[idx].frame_index == frame_index {
            let removed = self.keyframes.remove(idx);
            proof {
                let t = self.keyframes@;
                assert forall|i: int, j: int|
                    0 <= i < j < t.len() implies (#[trigger] t[i]).frame_index < (
                #[trigger] t[j]).frame_index by {
                    let i0: int = if i < idx {
                        i
                    } else {
                        i + 1
                    };
                    let j0: int = if j < idx {
                        j
                    } else {
                        j + 1
                    };
                    assert(t[i] == s[i0] && t[j] == s[j0]);
                    assert(s[i0].frame_index < s[j0].frame_index);
                }
            }
            Some(removed)
        } else {
            proof {
                assert forall|i: int|
                    0 <= i < s.len() implies (#[trigger] s[i]).frame_index != frame_index by {
                    if i >= idx && idx < s.len() && i > idx {
                        assert(s[idx as int].frame_index < s[i].frame_index);
                    }
                }
            }
            None
        }
    }

    /// The keyframe's pose at `frame_index`, exactly when one sits there.
    pub fn find(&self, frame_index: u32) -> (r: Option<BoneFrameTransform>)
        requires
            self.wf(),
        ensures
            r is Some <==> spec_bone_has_key(self.keyframes@, frame_index),
            match r {
                Some(t) => exists|i: int|
                    0 <= i < self.keyframes@.len() && (#[trigger] self.keyframes@[i]).frame_index
                        == frame_index && t == spec_frame_of_keyframe(self.keyframes@[i]),
                None => true,
            },
    {
        let ghost s = self.keyframes@;
        let mut idx: usize = 0;
        while idx < self.keyframes.len() && self.keyframes[idx].frame_index < frame_index
            invariant
                idx <= s.len(),
                s == self.keyframes@,
                self.wf(),
                forall|j: int| 0 <= j < idx ==> (#[trigger] s[j]).frame_index < frame_index,
            decreases s.len() - idx,
        {
            idx = idx + 1;
        }
        if idx < self.keyframes.len() && self.keyframes[idx].frame_index == frame_index {
            let kf = &self.keyframes[idx];
            Some(
                BoneFrameTransform {
                    translation: kf.translation,
                    orientation: kf.orientation,
                    interpolation: BoneKeyframeInterpolation::build(
                        &kf.interpolation_x,
                        &kf.interpolation_y,
                        &kf.interpolation_z,
                        &kf.interpolation_r,
                    ),
                    local_transform_mix: None,
                    enable_physics: kf.is_physics_simulation_enabled,
                    disable_physics: false,
                },
            )
        } else {
            proof {
                assert forall|i: int|
                    0 <= i < s.len() implies (#[trigger] s[i]).frame_index != frame_index by {
                    if i >= idx && idx < s.len() && i > idx {
                        assert(s[idx as int].frame_index < s[i].frame_index);
                    }
                }
            }
            None
        }
    }

    /// Indices of the last keyframe at or before `f` and the first after.
    fn search_closest_indices(&self, frame_index: u32) -> (r: (Option<usize>, Option<usize>))
        requires
            self.wf(),
        ensures
            match r.0 {
                Some(pi) => spec_bone_prev_idx(self.keyframes@, frame_index, pi as int),
                None => !spec_bone_has_le(self.keyframes@, frame_index),
            },
            match r.1 {
                Some(ni) => spec_bone_next_idx(self.keyframes@, frame_index, ni as int),
                None => !spec_bone_has_gt(self.keyframes@, frame_index),
            },
    {
        let ghost s = self.keyframes@;
        let mut idx: usize = 0;
        while idx < self.keyframes.len() && self.keyframes[idx].frame_index <= frame_index
            invariant
                idx <= s.len(),
                s == self.keyframes@,
                self.wf(),
                forall|j: int| 0 <= j < idx ==> (#[trigger] s[j]).frame_index <= frame_index,
            decreases s.len() - idx,
        {
            idx = idx + 1;
        }
        let prev: Option<usize> = if idx > 0 {
            Some(idx - 1)
        } else {
            proof {
                assert forall|i: int|
                    0 <= i < s.len() implies !((#[trigger] s[i]).frame_index <= frame_index) by {
                    if i > 0 {
                        assert(s[0].frame_index < s[i].frame_index);
                    }
                }
            }
            None
        };
        let next: Option<usize> = if idx < self.keyframes.len() {
            Some(idx)
        } else {
            proof {
                assert forall|i: int|
                    0 <= i < s.len() implies !((#[trigger] s[i]).frame_index > frame_index) by {}
            }
            None
        };
        (prev, next)
    }

    /// The closest frame indices around `f`: the largest at or below and
    /// the smallest above.
    pub fn search_closest(&self, frame_index: u32) -> (r: (Option<u32>, Option<u32>))
        requires
            self.wf(),
        ensures
            match r.0 {
                Some(p) => exists|i: int|
                    #[trigger] spec_bone_prev_idx(self.keyframes@, frame_index, i) && p
                        == self.keyframes@[i].frame_index,
                None => !spec_bone_has_le(self.keyframes@, frame_index),
            },
            match r.1 {
                Some(n) => exists|i: int|
                    #[trigger] spec_bone_next_idx(self.keyframes@, frame_index, i) && n
                        == self.keyframes@[i].frame_index,
                None => !spec_bone_has_gt(self.keyframes@, frame_index),
            },
    {
        let (pi, ni) = self.search_closest_indices(frame_index);
        let prev = match pi {
            Some(i) => Some(self.keyframes[i].frame_index),
            None => None,
        };
        let next = match ni {
            Some(i) => Some(self.keyframes[i].frame_index),
            None => None,
        };
        (prev, next)
    }

    /// The track's pose at a whole frame: the keyframe itself on a hit, a
    /// single neighbour verbatim at either end, the eased interpolation of
    /// the bracketing pair otherwise, and the identity on an empty track.
    pub fn seek(&self, frame_index: u32, cache: &mut CurveCache) -> (r: BoneFrameTransform)
        requires
            self.wf(),
            old(cache).wf(),
        ensures
            final(cache).wf(),
            spec_bone_seek_post(self.keyframes@, frame_index, r),
    {
        if let Some(frame) = self.find(frame_index) {
            return frame;
        }
        let ghost s = self.keyframes@;
        let (pi, ni) = self.search_closest_indices(frame_index);
        match (pi, ni) {
            (Some(p), Some(n)) => {
                let prev = self.keyframes[p];
                let next = self.keyframes[n];
                let interval = next.frame_index - prev.frame_index;
                let coef = coefficient(prev.frame_index, next.frame_index, frame_index);
                let prev_enabled = prev.is_physics_simulation_enabled;
                let next_enabled = next.is_physics_simulation_enabled;
                if prev_enabled != next_enabled {
                    // A physics hand-over edge: the next pose verbatim with
                    // the raw coefficient as crossfade, physics turning off
                    // or on with the next keyframe.
                    let r = BoneFrameTransform {
                        translation: next.translation,
                        orientation: next.orientation,
                        interpolation: BoneKeyframeInterpolation::build(
                            &next.interpolation_x,
                            &next.interpolation_y,
                            &next.interpolation_z,
                            &next.interpolation_r,
                        ),
                        local_transform_mix: Some(coef),
                        enable_physics: next_enabled,
                        disable_physics: !next_enabled,
                    };
                    proof {
                        assert(spec_bone_interp_post(s[p as int], s[n as int], frame_index, r));
                    }
                    r
                } else {
                    let ix = KeyframeInterpolationPoint::new(&next.interpolation_x);
                    let iy = KeyframeInterpolationPoint::new(&next.interpolation_y);
                    let iz = KeyframeInterpolationPoint::new(&next.interpolation_z);
                    let ax = ix.curve_value(interval, coef, cache);
                    let ay = iy.curve_value(interval, coef, cache);
                    let az = iz.curve_value(interval, coef, cache);
                    let amounts = V3 { x: ax, y: ay, z: az };
                    let translation = lerp_element_wise(
                        prev.translation,
                        next.translation,
                        amounts,
                    );
                    let ir = KeyframeInterpolationPoint::new(&next.interpolation_r);
                    let ar = ir.curve_value(interval, coef, cache);
                    let orientation = q_slerp(prev.orientation, next.orientation, ar);
                    let r = BoneFrameTransform {
                        translation,
                        orientation,
                        interpolation: BoneKeyframeInterpolation::build(
                            &next.interpolation_x,
                            &next.interpolation_y,
                            &next.interpolation_z,
                            &next.interpolation_r,
                        ),
                        local_transform_mix: None,
                        enable_physics: prev_enabled && next_enabled,
                        disable_physics: false,
                    };
                    proof {
                        assert(r == spec_bone_interp_result(prev, next, ax, ay, az, ar));
                        assert(spec_bone_interp_post(s[p as int], s[n as int], frame_index, r));
                    }
                    r
                }
            },
            (Some(p), None) => {
                let prev = &self.keyframes[p];
                BoneFrameTransform {
                    translation: prev.translation,
                    orientation: prev.orientation,
                    interpolation: BoneKeyframeInterpolation::build(
                        &prev.interpolation_x,
                        &prev.interpolation_y,
                        &prev.interpolation_z,
                        &prev.interpolation_r,
                    ),
                    local_transform_mix: None,
                    enable_physics: prev.is_physics_simulation_enabled,
                    disable_physics: false,
                }
            },
            (None, Some(n)) => {
                let next = &self.keyframes[n];
                BoneFrameTransform {
                    translation: next.translation,
                    orientation: next.orientation,
                    interpolation: BoneKeyframeInterpolation::build(
                        &next.interpolation_x,
                        &next.interpolation_y,
                        &next.interpolation_z,
                        &next.interpolation_r,
                    ),
                    local_transform_mix: None,
                    enable_physics: next.is_physics_simulation_enabled,
                    disable_physics: false,
                }
            },
            (None, None) => BoneFrameTransform::default(),
        }
    }

    /// The track's pose between whole frames: the poses at `f` and `f + 1`
    /// blended by `amount` when it is positive.
    pub fn seek_precisely(&self, frame_index: u32, amount: u32, cache: &mut CurveCache) -> (r:
        BoneFrameTransform)
        requires
            self.wf(),
            old(cache).wf(),
        ensures
            final(cache).wf(),
            spec_bone_seek_precisely_post(self.keyframes@, frame_index, amount, r),
    {
        let f0 = self.seek(frame_index, cache);
        if flt(0, amount) {
            let next_frame = if frame_index <= u32::MAX - 1 {
                frame_index + 1
            } else {
                u32::MAX
            };
            let f1 = self.seek(next_frame, cache);
            let local_transform_mix: Option<u32> = match (
                f0.local_transform_mix,
                f1.local_transform_mix,
            ) {
                (Some(a0), Some(a1)) => Some(lerp_f32(a0, a1, amount)),
                (None, Some(a1)) => Some(fmul(amount, a1)),
                (Some(a0), None) => Some(fmul(fsub(T_ONE, amount), a0)),
                (None, None) => None,
            };
            let r = BoneFrameTransform {
                translation: v3_lerp(f0.translation, f1.translation, amount),
                orientation: q_slerp(f0.orientation, f1.orientation, amount),
                interpolation: f0.interpolation.lerp(f1.interpolation, amount),
                local_transform_mix,
                enable_physics: f0.enable_physics && f1.enable_physics,
                disable_physics: f0.disable_physics || f1.disable_physics,
            };
            proof {
                assert(next_frame == add_sat(frame_index, 1));
                assert(spec_bone_seek_post(self.keyframes@, frame_index, f0));
                assert(spec_bone_seek_post(self.keyframes@, add_sat(frame_index, 1), f1));
                assert(r == spec_bone_blend(f0, f1, amount));
            }
            r
        } else {
            f0
        }
    }
}

/// Whether the morph keyframes are sorted strictly by frame index.
pub open spec fn spec_morph_sorted(s: Seq<MorphKeyframe>) -> bool {
    forall|i: int, j: int|
        0 <= i < j < s.len() ==> (#[trigger] s[i]).frame_index < (#[trigger] s[j]).frame_index
}

/// Whether some morph keyframe sits exactly at `f`.
pub open spec fn spec_morph_has_key(s: Seq<MorphKeyframe>, f: u32) -> bool {
    exists|i: int| 0 <= i < s.len() && (#[trigger] s[i]).frame_index == f
}

/// Whether some morph keyframe sits at or before `f`.
pub open spec fn spec_morph_has_le(s: Seq<MorphKeyframe>, f: u32) -> bool {
    exists|i: int| 0 <= i < s.len() && (#[trigger] s[i]).frame_index <= f
}

/// Whether some morph keyframe sits after `f`.
pub open spec fn spec_morph_has_gt(s: Seq<MorphKeyframe>, f: u32) -> bool {
    exists|i: int| 0 <= i < s.len() && (#[trigger] s[i]).frame_index > f
}

/// Whether `i` indexes the last morph keyframe at or before `f`.
pub open spec fn spec_morph_prev_idx(s: Seq<MorphKeyframe>, f: u32, i: int) -> bool {
    &&& 0 <= i < s.len()
    &&& s[i].frame_index <= f
    &&& (i + 1 == s.len() || s[i + 1].frame_index > f)
}

/// Whether `i` indexes the first morph keyframe after `f`.
pub open spec fn spec_morph_next_idx(s: Seq<MorphKeyframe>, f: u32, i: int) -> bool {
    &&& 0 <= i < s.len()
    &&& s[i].frame_index > f
    &&& (i == 0 || s[i - 1].frame_index <= f)
}

/// What a morph `seek` yields at `f`: the keyframe weight on a hit, the
/// single neighbour's weight at either end, the linear interpolation of the
/// bracketing weights otherwise, and zero on an empty track.
pub open spec fn spec_morph_seek_post(s: Seq<MorphKeyframe>, f: u32, r: u32) -> bool {
    if spec_morph_has_key(s, f) {
        exists|i: int|
            0 <= i < s.len() && (#[trigger] s[i]).frame_index == f && r == s[i].weight
    } else if spec_morph_has_le(s, f) && spec_morph_has_gt(s, f) {
        exists|pi: int, ni: int|
            #![trigger spec_morph_prev_idx(s, f, pi), spec_morph_next_idx(s, f, ni)]
            {
                &&& spec_morph_prev_idx(s, f, pi)
                &&& spec_morph_next_idx(s, f, ni)
                &&& r == spec_lerp1(
                    s[pi].weight,
                    s[ni].weight,
                    spec_coefficient(s[pi].frame_index, s[ni].frame_index, f),
                )
            }
    } else if spec_morph_has_le(s, f) {
        exists|pi: int| #[trigger] spec_morph_prev_idx(s, f, pi) && r == s[pi].weight
    } else if spec_morph_has_gt(s, f) {
        exists|ni: int| #[trigger] spec_morph_next_idx(s, f, ni) && r == s[ni].weight
    } else {
        r == 0
    }
}

/// What a morph `seek_precisely` yields: the weights at `f` and `f + 1`
/// interpolated by the sub-frame amount when it is positive.
pub open spec fn spec_morph_seek_precisely_post(
    s: Seq<MorphKeyframe>,
    f: u32,
    amount: u32,
    r: u32,
) -> bool {
    if spec_lt(0, amount) {
        exists|w0: u32, w1: u32|
            #![trigger spec_morph_seek_post(s, f, w0), spec_morph_seek_post(s, add_sat(f, 1), w1)]
            {
                &&& spec_morph_seek_post(s, f, w0)
                &&& spec_morph_seek_post(s, add_sat(f, 1), w1)
                &&& r == spec_lerp1(w0, w1, amount)
            }
    } else {
        spec_morph_seek_post(s, f, r)
    }
}

/// A morph channel's keyframes, sorted strictly by frame index.
#[derive(Clone, Debug)]
pub struct MorphMotionTrack {
    /// The keyframes, sorted strictly by frame index.
    pub keyframes: Vec<MorphKeyframe>,
}

impl MorphMotionTrack {
    /// The track's keyframes are sorted strictly by frame index.
    pub open spec fn wf(self) -> bool {
        spec_morph_sorted(self.keyframes@)
    }

    /// An empty track.
    pub fn new() -> (r: MorphMotionTrack)
        ensures
            r.wf(),
            r.keyframes@.len() == 0,
    {
        MorphMotionTrack { keyframes: Vec::new() }
    }

    /// Number of keyframes.
    pub fn len(&self) -> (r: usize)
        ensures
            r == self.keyframes@.len(),
    {
        self.keyframes.len()
    }

    /// Whether the track has no keyframes.
    pub fn is_empty(&self) -> (r: bool)
        ensures
            r == (self.keyframes@.len() == 0),
    {
        self.keyframes.len() == 0
    }

    /// The largest frame index, or zero on an empty track.
    pub fn max_frame_index(&self) -> (r: u32)
        requires
            self.wf(),
        ensures
            self.keyframes@.len() == 0 ==> r == 0,
            self.keyframes@.len() > 0 ==> r == self.keyframes@.last().frame_index,
    {
        if self.keyframes.len() == 0 {
            0
        } else {
            self.keyframes[self.keyframes.len() - 1].frame_index
        }
    }

    /// Store a keyframe, replacing and returning the one already at its
    /// frame, keeping the order intact.
    pub fn insert_keyframe(&mut self, keyframe: MorphKeyframe) -> (r: Option<MorphKeyframe>)
        requires
            old(self).wf(),
        ensures
            final(self).wf(),
            match r {
                Some(replaced) => exists|i: int|
                    0 <= i < old(self).keyframes@.len() && (#[trigger] old(self).keyframes@[i])
                        .frame_index == keyframe.frame_index && replaced == old(self).keyframes@[i]
                        && final(self).keyframes@ == old(self).keyframes@.update(i, keyframe),
                None => {
                    &&& !spec_morph_has_key(old(self).keyframes@, keyframe.frame_index)
                    &&& exists|i: int|
                        0 <= i <= old(self).keyframes@.len() && final(self).keyframes@ == old(
                            self,
                        ).keyframes@.insert(i, keyframe)
                },
            },
    {
        let ghost s = self.keyframes@;
        let mut idx: usize = 0;
        while idx < self.keyframes.len() && self.keyframes[idx].frame_index < keyframe.frame_index
            invariant
                self == old(self),
                idx <= s.len(),
                s == self.keyframes@,
                forall|j: int| 0 <= j < idx ==> (#[trigger] s[j]).frame_index < keyframe.frame_index,
            decreases s.len() - idx,
        {
            idx = idx + 1;
        }
        if idx < self.keyframes.len() && self.keyframes[idx].frame_index == keyframe.frame_index {
            let replaced = self.keyframes.remove(idx);
            self.keyframes.insert(idx, keyframe);
            proof {
                let t = self.keyframes@;
                assert(t =~= s.update(idx as int, keyframe));
                assert forall|i: int, j: int|
                    0 <= i < j < t.len() implies (#[trigger] t[i]).frame_index < (
                #[trigger] t[j]).frame_index by {
                    assert(s[i].frame_index < s[j].frame_index);
                }
            }
            Some(replaced)
        } else {
            proof {
                assert forall|i: int|
                    0 <= i < s.len() implies (#[trigger] s[i]).frame_index
                    != keyframe.frame_index by {
                    if i < idx {
                    } else if idx < s.len() {
                        if i > idx {
                            assert(s[idx as int].frame_index < s[i].frame_index);
                        }
                    }
                }
            }
            self.keyframes.insert(idx, keyframe);
            proof {
                let t = self.keyframes@;
                assert forall|i: int, j: int|
                    0 <= i < j < t.len() implies (#[trigger] t[i]).frame_index < (
                #[trigger] t[j]).frame_index by {
                    if i < idx && j < idx {
                    } else if i < idx && j == idx {
                        assert(t[i] == s[i]);
                    } else if i == idx && j > idx {
                        assert(t[j] == s[j - 1]);
                        assert(s[j - 1].frame_index >= keyframe.frame_index);
                        assert(s[j - 1].frame_index != keyframe.frame_index);
                    } else if i < idx && j > idx {
                        assert(t[i] == s[i] && t[j] == s[j - 1]);
                        assert(idx <= j - 1);
                        if idx < j - 1 {
                            assert(s[idx as int].frame_index < s[j - 1].frame_index);
                        }
                        assert(s[i].frame_index < keyframe.frame_index);
                        assert(keyframe.frame_index <= s[j - 1].frame_index);
                    } else {
                        assert(t[i] == s[i - 1] && t[j] == s[j - 1]);
                    }
                }
            }
            None
        }
    }

    /// Remove and return the keyframe at `frame_index`, if present.
    pub fn remove_keyframe(&mut self, frame_index: u32) -> (r: Option<MorphKeyframe>)
        requires
            old(self).wf(),
        ensures
            final(self).wf(),
            match r {
                Some(removed) => exists|i: int|
                    0 <= i < old(self).keyframes@.len() && (#[trigger] old(self).keyframes@[i])
                        .frame_index == frame_index && removed == old(self).keyframes@[i]
                        && final(self).keyframes@ == old(self).keyframes@.remove(i),
                None => {
                    &&& !spec_morph_has_key(old(self).keyframes@, frame_index)
                    &&& *final(self) == *old(self)
                },
            },
    {
        let ghost s = self.keyframes@;
        let mut idx: usize = 0;
        while idx < self.keyframes.len() && self.keyframes[idx].frame_index < frame_index
            invariant
                self == old(self),
                idx <= s.len(),
                s == self.keyframes@,
                forall|j: int| 0 <= j < idx ==> (#[trigger] s[j]).frame_index < frame_index,
            decreases s.len() - idx,
        {
            idx = idx + 1;
        }
        if idx < self.keyframes.len() && self.keyframes[idx].frame_index == frame_index {
            let removed = self.keyframes.remove(idx);
            proof {
                let t = self.keyframes@;
                assert forall|i: int, j: int|
                    0 <= i < j < t.len() implies (#[trigger] t[i]).frame_index < (
                #[trigger] t[j]).frame_index by {
                    let i0: int = if i < idx {
                        i
                    } else {
                        i + 1
                    };
                    let j0: int = if j < idx {
                        j
                    } else {
                        j + 1
                    };
                    assert(t[i] == s[i0] && t[j] == s[j0]);
                    assert(s[i0].frame_index < s[j0].frame_index);
                }
            }
            Some(removed)
        } else {
            proof {
                assert forall|i: int|
                    0 <= i < s.len() implies (#[trigger] s[i]).frame_index != frame_index by {
                    if i >= idx && idx < s.len() && i > idx {
                        assert(s[idx as int].frame_index < s[i].frame_index);
                    }
                }
            }
            None
        }
    }

    /// The keyframe's weight at `frame_index`, exactly when one sits there.
    pub fn find(&self, frame_index: u32) -> (r: Option<u32>)
        requires
            self.wf(),
        ensures
            r is Some <==> spec_morph_has_key(self.keyframes@, frame_index),
            match r {
                Some(w) => exists|i: int|
                    0 <= i < self.keyframes@.len() && (#[trigger] self.keyframes@[i]).frame_index
                        == frame_index && w == self.keyframes@[i].weight,
                None => true,
            },
    {
        let ghost s = self.keyframes@;
        let mut idx: usize = 0;
        while idx < self.keyframes.len() && self.keyframes[idx].frame_index < frame_index
            invariant
                idx <= s.len(),
                s == self.keyframes@,
                self.wf(),
                forall|j: int| 0 <= j < idx ==> (#[trigger] s[j]).frame_index < frame_index,
            decreases s.len() - idx,
        {
            idx = idx + 1;
        }
        if idx < self.keyframes.len() && self.keyframes[idx].frame_index == frame_index {
            Some(self.keyframes[idx].weight)
        } else {
            proof {
                assert forall|i: int|
                    0 <= i < s.len() implies (#[trigger] s[i]).frame_index != frame_index by {
                    if i >= idx && idx < s.len() && i > idx {
                        assert(s[idx as int].frame_index < s[i].frame_index);
                    }
                }
            }
            None
        }
    }

    /// Indices of the last keyframe at or before `f` and the first after.
    fn search_closest_indices(&self, frame_index: u32) -> (r: (Option<usize>, Option<usize>))
        requires
            self.wf(),
        ensures
            match r.0 {
                Some(pi) => spec_morph_prev_idx(self.keyframes@, frame_index, pi as int),
                None => !spec_morph_has_le(self.keyframes@, frame_index),
            },
            match r.1 {
                Some(ni) => spec_morph_next_idx(self.keyframes@, frame_index, ni as int),
                None => !spec_morph_has_gt(self.keyframes@, frame_index),
            },
    {
        let ghost s = self.keyframes@;
        let mut idx: usize = 0;
        while idx < self.keyframes.len() && self.keyframes[idx].frame_index <= frame_index
            invariant
                idx <= s.len(),
                s == self.keyframes@,
                self.wf(),
                forall|j: int| 0 <= j < idx ==> (#[trigger] s[j]).frame_index <= frame_index,
            decreases s.len() - idx,
        {
            idx = idx + 1;
        }
        let prev: Option<usize> = if idx > 0 {
            Some(idx - 1)
        } else {
            proof {
                assert forall|i: int|
                    0 <= i < s.len() implies !((#[trigger] s[i]).frame_index <= frame_index) by {
                    if i > 0 {
                        assert(s[0].frame_index < s[i].frame_index);
                    }
                }
            }
            None
        };
        let next: Option<usize> = if idx < self.keyframes.len() {
            Some(idx)
        } else {
            None
        };
        (prev, next)
    }

    /// The closest frame indices around `f`.
    pub fn search_closest(&self, frame_index: u32) -> (r: (Option<u32>, Option<u32>))
        requires
            self.wf(),
        ensures
            match r.0 {
                Some(p) => exists|i: int|
                    #[trigger] spec_morph_prev_idx(self.keyframes@, frame_index, i) && p
                        == self.keyframes@[i].frame_index,
                None => !spec_morph_has_le(self.keyframes@, frame_index),
            },
            match r.1 {
                Some(n) => exists|i: int|
                    #[trigger] spec_morph_next_idx(self.keyframes@, frame_index, i) && n
                        == self.keyframes@[i].frame_index,
                None => !spec_morph_has_gt(self.keyframes@, frame_index),
            },
    {
        let (pi, ni) = self.search_closest_indices(frame_index);
        let prev = match pi {
            Some(i) => Some(self.keyframes[i].frame_index),
            None => None,
        };
        let next = match ni {
            Some(i) => Some(self.keyframes[i].frame_index),
            None => None,
        };
        (prev, next)
    }

    /// The channel's weight at a whole frame: the keyframe weight on a hit,
    /// a single neighbour's weight at either end, their linear
    /// interpolation otherwise, and zero on an empty track.
    pub fn seek(&self, frame_index: u32) -> (r: u32)
        requires
            self.wf(),
        ensures
            spec_morph_seek_post(self.keyframes@, frame_index, r),
    {
        if let Some(weight) = self.find(frame_index) {
            return weight;
        }
        let (pi, ni) = self.search_closest_indices(frame_index);
        match (pi, ni) {
            (Some(p), Some(n)) => {
                let prev = self.keyframes[p];
                let next = self.keyframes[n];
                let coef = coefficient(prev.frame_index, next.frame_index, frame_index);
                lerp_f32(prev.weight, next.weight, coef)
            },
            (Some(p), None) => self.keyframes[p].weight,
            (None, Some(n)) => self.keyframes[n].weight,
            (None, None) => 0,
        }
    }

    /// The channel's weight between whole frames: the weights at `f` and
    /// `f + 1` interpolated by `amount` when it is positive.
    pub fn seek_precisely(&self, frame_index: u32, amount: u32) -> (r: u32)
        requires
            self.wf(),
        ensures
            spec_morph_seek_precisely_post(self.keyframes@, frame_index, amount, r),
    {
        let w0 = self.seek(frame_index);
        if flt(0, amount) {
            let next_frame = if frame_index <= u32::MAX - 1 {
                frame_index + 1
            } else {
                u32::MAX
            };
            let w1 = self.seek(next_frame);
            let r = lerp_f32(w0, w1, amount);
            proof {
                assert(next_frame == add_sat(frame_index, 1));
                assert(spec_morph_seek_post(self.keyframes@, frame_index, w0));
                assert(spec_morph_seek_post(self.keyframes@, add_sat(frame_index, 1), w1));
            }
            r
        } else {
            w0
        }
    }
}

/// Whether the IK keyframes are sorted strictly by frame index.
pub open spec fn spec_ik_sorted(s: Seq<IkKeyframe>) -> bool {
    forall|i: int, j: int|
        0 <= i < j < s.len() ==> (#[trigger] s[i]).frame_index < (#[trigger] s[j]).frame_index
}

/// Whether some IK keyframe sits exactly at `f`.
pub open spec fn spec_ik_has_key(s: Seq<IkKeyframe>, f: u32) -> bool {
    exists|i: int| 0 <= i < s.len() && (#[trigger] s[i]).frame_index == f
}

/// Whether some IK keyframe sits at or before `f`.
pub open spec fn spec_ik_has_le(s: Seq<IkKeyframe>, f: u32) -> bool {
    exists|i: int| 0 <= i < s.len() && (#[trigger] s[i]).frame_index <= f
}

/// Whether `i` indexes the last IK keyframe at or before `f`.
pub open spec fn spec_ik_prev_idx(s: Seq<IkKeyframe>, f: u32, i: int) -> bool {
    &&& 0 <= i < s.len()
    &&& s[i].frame_index <= f
    &&& (i + 1 == s.len() || s[i + 1].frame_index > f)
}

/// An IK channel's keyframes, sorted strictly by frame index.
#[derive(Clone, Debug)]
pub struct IkMotionTrack {
    /// The keyframes, sorted strictly by frame index.
    pub keyframes: Vec<IkKeyframe>,
}

impl IkMotionTrack {
    /// The track's keyframes are sorted strictly by frame index.
    pub open spec fn wf(self) -> bool {
        spec_ik_sorted(self.keyframes@)
    }

    /// An empty track.
    pub fn new() -> (r: IkMotionTrack)
        ensures
            r.wf(),
            r.keyframes@.len() == 0,
    {
        IkMotionTrack { keyframes: Vec::new() }
    }

    /// Number of keyframes.
    pub fn len(&self) -> (r: usize)
        ensures
            r == self.keyframes@.len(),
    {
        self.keyframes.len()
    }

    /// The largest frame index, or zero on an empty track.
    pub fn max_frame_index(&self) -> (r: u32)
        requires
            self.wf(),
        ensures
            self.keyframes@.len() == 0 ==> r == 0,
            self.keyframes@.len() > 0 ==> r == self.keyframes@.last().frame_index,
    {
        if self.keyframes.len() == 0 {
            0
        } else {
            self.keyframes[self.keyframes.len() - 1].frame_index
        }
    }

    /// Store a keyframe, replacing and returning the one already at its
    /// frame, keeping the order intact.
    pub fn insert_keyframe(&mut self, keyframe: IkKeyframe) -> (r: Option<IkKeyframe>)
        requires
            old(self).wf(),
        ensures
            final(self).wf(),
            match r {
                Some(replaced) => exists|i: int|
                    0 <= i < old(self).keyframes@.len() && (#[trigger] old(self).keyframes@[i])
                        .frame_index == keyframe.frame_index && replaced == old(self).keyframes@[i]
                        && final(self).keyframes@ == old(self).keyframes@.update(i, keyframe),
                None => {
                    &&& !spec_ik_has_key(old(self).keyframes@, keyframe.frame_index)
                    &&& exists|i: int|
                        0 <= i <= old(self).keyframes@.len() && final(self).keyframes@ == old(
                            self,
                        ).keyframes@.insert(i, keyframe)
                },
            },
    {
        let ghost s = self.keyframes@;
        let mut idx: usize = 0;
        while idx < self.keyframes.len() && self.keyframes[idx].frame_index < keyframe.frame_index
            invariant
                self == old(self),
                idx <= s.len(),
                s == self.keyframes@,
                forall|j: int| 0 <= j < idx ==> (#[trigger] s[j]).frame_index < keyframe.frame_index,
            decreases s.len() - idx,
        {
            idx = idx + 1;
        }
        if idx < self.keyframes.len() && self.keyframes[idx].frame_index == keyframe.frame_index {
            let ghost kf_frame = keyframe.frame_index;
            let replaced = self.keyframes.remove(idx);
            self.keyframes.insert(idx, keyframe);
            proof {
                let t = self.keyframes@;
                assert(t =~= s.update(idx as int, t[idx as int]));
                assert forall|i: int, j: int|
                    0 <= i < j < t.len() implies (#[trigger] t[i]).frame_index < (
                #[trigger] t[j]).frame_index by {
                    assert(s[i].frame_index < s[j].frame_index);
                    assert(t[idx as int].frame_index == kf_frame);
                }
            }
            Some(replaced)
        } else {
            proof {
                assert forall|i: int|
                    0 <= i < s.len() implies (#[trigger] s[i]).frame_index
                    != keyframe.frame_index by {
                    if i < idx {
                    } else if idx < s.len() {
                        if i > idx {
                            assert(s[idx as int].frame_index < s[i].frame_index);
                        }
                    }
                }
            }
            let ghost kf_frame = keyframe.frame_index;
            self.keyframes.insert(idx, keyframe);
            proof {
                let t = self.keyframes@;
                assert forall|i: int, j: int|
                    0 <= i < j < t.len() implies (#[trigger] t[i]).frame_index < (
                #[trigger] t[j]).frame_index by {
                    if i < idx && j < idx {
                    } else if i < idx && j == idx {
                        assert(t[i] == s[i]);
                    } else if i == idx && j > idx {
                        assert(t[j] == s[j - 1]);
                        assert(s[j - 1].frame_index >= kf_frame);
                        assert(s[j - 1].frame_index != kf_frame);
                    } else if i < idx && j > idx {
                        assert(t[i] == s[i] && t[j] == s[j - 1]);
                        assert(idx <= j - 1);
                        if idx < j - 1 {
                            assert(s[idx as int].frame_index < s[j - 1].frame_index);
                        }
                        assert(s[i].frame_index < kf_frame);
                        assert(kf_frame <= s[j - 1].frame_index);
                    } else {
                        assert(t[i] == s[i - 1] && t[j] == s[j - 1]);
                    }
                }
            }
            None
        }
    }

    /// Whether the IK solver is enabled at `frame_index`: the most recent
    /// keyframe's flag, true when none has come yet.
    pub fn is_enabled_at(&self, frame_index: u32) -> (r: bool)
        requires
            self.wf(),
        ensures
            spec_ik_has_le(self.keyframes@, frame_index) ==> exists|i: int|
                #[trigger] spec_ik_prev_idx(self.keyframes@, frame_index, i) && r
                    == self.keyframes@[i].enabled,
            !spec_ik_has_le(self.keyframes@, frame_index) ==> r == true,
    {
        let ghost s = self.keyframes@;
        let mut idx: usize = 0;
        while idx < self.keyframes.len() && self.keyframes[idx].frame_index <= frame_index
            invariant
                idx <= s.len(),
                s == self.keyframes@,
                self.wf(),
                forall|j: int| 0 <= j < idx ==> (#[trigger] s[j]).frame_index <= frame_index,
            decreases s.len() - idx,
        {
            idx = idx + 1;
        }
        if idx > 0 {
            proof {
                assert(spec_ik_prev_idx(s, frame_index, idx - 1));
            }
            self.keyframes[idx - 1].enabled
        } else {
            proof {
                assert forall|i: int|
                    0 <= i < s.len() implies !((#[trigger] s[i]).frame_index <= frame_index) by {
                    if i > 0 {
                        assert(s[0].frame_index < s[i].frame_index);
                    }
                }
            }
            true
        }
    }
}

} // verus!
